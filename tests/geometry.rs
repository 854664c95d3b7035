use std::cmp::Ordering;

use geom3d::{Binary, Constant, Point, Relation, Scalar, Triangle, Unary};
use num_traits::float::TotalOrder;
use num_traits::{Float, FloatConst, NumCast};

/// `f32` or `f64` as a coordinate type, through num-traits.
#[derive(Debug, Clone, Copy, PartialEq, PartialOrd)]
struct Num<T>(T);

impl<T: Float + FloatConst + TotalOrder> Scalar for Num<T> {
    // The four spec functions belong to the proofs; they never run.
    fn spec_binary(_: Binary, _: Self, _: Self) -> Self {
        unreachable!()
    }

    fn spec_unary(_: Unary, _: Self) -> Self {
        unreachable!()
    }

    fn spec_relation(_: Relation, _: Self, _: Self) -> bool {
        unreachable!()
    }

    fn spec_constant(_: Constant) -> Self {
        unreachable!()
    }

    fn add(self, rhs: Self) -> Self {
        Num(self.0 + rhs.0)
    }

    fn sub(self, rhs: Self) -> Self {
        Num(self.0 - rhs.0)
    }

    fn mul(self, rhs: Self) -> Self {
        Num(self.0 * rhs.0)
    }

    fn div(self, rhs: Self) -> Self {
        Num(self.0 / rhs.0)
    }

    fn sqrt(self) -> Self {
        Num(self.0.sqrt())
    }

    fn acos(self) -> Self {
        Num(self.0.acos())
    }

    fn abs(self) -> Self {
        Num(self.0.abs())
    }

    fn eq(self, rhs: Self) -> bool {
        self.0 == rhs.0
    }

    fn lt(self, rhs: Self) -> bool {
        self.0 < rhs.0
    }

    fn le(self, rhs: Self) -> bool {
        self.0 <= rhs.0
    }

    fn total_le(self, rhs: Self) -> bool {
        self.0.total_cmp(&rhs.0) != Ordering::Greater
    }

    fn from_u8(n: u8) -> Self {
        Num(<T as NumCast>::from(n).unwrap())
    }

    fn pi() -> Self {
        Num(T::PI())
    }

    fn frac_pi_2() -> Self {
        Num(T::FRAC_PI_2())
    }

    fn min_positive() -> Self {
        Num(T::min_positive_value())
    }
}

fn pt(x: f64, y: f64, z: f64) -> Point<Num<f64>> {
    Point::new(Num(x), Num(y), Num(z))
}

fn right_triangle() -> Triangle<Num<f64>> {
    Triangle::new(pt(0.0, 0.0, 0.0), pt(3.0, 0.0, 0.0), pt(0.0, 4.0, 0.0))
}

fn permutations(t: Triangle<Num<f64>>) -> Vec<Triangle<Num<f64>>> {
    let (a, b, c) = (t.a, t.b, t.c);
    vec![
        Triangle::new(a, b, c),
        Triangle::new(a, c, b),
        Triangle::new(b, a, c),
        Triangle::new(b, c, a),
        Triangle::new(c, a, b),
        Triangle::new(c, b, a),
    ]
}

fn sorted(mut v: Vec<f64>) -> Vec<f64> {
    v.sort_by(|x, y| x.total_cmp(y));
    v
}

#[test]
fn cartesian_barycentric() {
    let point_a = Point::new(Num(10.153), Num(20.21), Num(0.0));
    let point_b = Point::new(Num(1.21), Num(-2.531), Num(0.0));
    let point_c = Point::new(Num(-42.332), Num(0.0), Num(0.0));
    let triangle = Triangle::new(point_a, point_b, point_c);

    let point_d = Point::new(Num(-0.09823), Num(0.2131), Num(0.0));
    let point_d1 = triangle.barycentric_to_cartesian(&triangle.cartesian_to_barycentric(&point_d));
    assert!(point_d.distance_to(&point_d1).0 <= 0.0001);
}

#[test]
fn collinear() {
    let point_a = Point::new(Num(1.0f32), Num(2.0), Num(-3.0));
    let point_b = Point::new(Num(1.0f32), Num(2.0), Num(0.0));
    let point_c = Point::new(Num(1.0f32), Num(2.0), Num(19.0));
    let triangle = Triangle::new(point_a, point_b, point_c);

    assert!(triangle.is_collinear());
}

#[test]
fn aabb() {
    let point_a = pt(-21.1, 2.0, -3.0);
    let point_b = pt(84.2, -9.0, 12.9832);
    let point_c = pt(-1.1, 32.0, 19.0);
    let triangle1 = Triangle::new(point_a, point_b, point_c);
    let triangle2 = Triangle::new(point_c, point_a, point_b);
    assert_eq!(triangle1.aabb(), triangle2.aabb());
}

#[test]
fn area() {
    let point_a = pt(-21.0, 2.0, -3.0);
    let point_b = pt(84.0, -9.0, 12.0);
    let point_c = pt(19.0, 32.0, 19.0);
    let triangle1 = Triangle::new(point_a, point_b, point_c);
    let triangle2 = Triangle::new(point_b, point_c, point_a);
    assert!((triangle1.area().0 - triangle2.area().0).abs() <= 0.0001);
}

#[test]
fn perimeter() {
    let point_a = Point::new(Num(21.0f32), Num(2.239), Num(3.305));
    let point_b = Point::new(Num(-84.328f32), Num(-9.896), Num(12.98));
    let point_c = Point::new(Num(19.0f32), Num(-32.3249), Num(19.8432));
    let triangle1 = Triangle::new(point_a, point_b, point_c);
    let triangle2 = Triangle::new(point_b, point_c, point_a);
    assert!((triangle1.perimeter().0 - triangle2.perimeter().0).abs() <= 0.0001);
}

#[test]
fn vector_algebra() {
    let p = pt(1.0, 2.0, 3.0);
    let q = pt(4.0, -5.0, 6.0);
    assert_eq!(p.plus(&q), pt(5.0, -3.0, 9.0));
    assert_eq!(p + q, pt(5.0, -3.0, 9.0));
    assert_eq!(p.minus(&q), pt(-3.0, 7.0, -3.0));
    assert_eq!(p - q, pt(-3.0, 7.0, -3.0));
    assert_eq!(p.dot(&q), Num(12.0));
    assert_eq!(p.cross(&q), pt(27.0, 6.0, -13.0));
    assert_eq!(q.cross(&p), pt(-27.0, -6.0, 13.0));
    assert_eq!(p.cross(&pt(2.0, 4.0, 6.0)), pt(0.0, 0.0, 0.0));
    assert_eq!(pt(0.0, 0.0, 0.0).distance_to(&pt(3.0, 4.0, 12.0)), Num(13.0));
    assert_eq!(p.distance_to(&q), q.distance_to(&p));
    assert_eq!(p.distance_to(&p), Num(0.0));
}

#[test]
fn normalized_vectors() {
    assert_eq!(pt(3.0, 0.0, 4.0).normalized(), pt(0.6, 0.0, 0.8));
    assert_eq!(pt(0.0, 0.0, 0.0).normalized(), pt(0.0, 0.0, 0.0));
    let p = pt(1.5, -2.25, 7.0);
    let n = p.normalized();
    let nn = n.normalized();
    assert!(n.distance_to(&nn).0 <= 1e-12);
    assert!((n.distance_to(&Point::origin()).0 - 1.0).abs() <= 1e-12);
}

#[test]
fn right_triangle_metrics() {
    let t = right_triangle();
    assert_eq!(t.sides(), [Num(5.0), Num(4.0), Num(3.0)]);
    assert_eq!(t.perimeter(), Num(12.0));
    assert_eq!(t.semiperimeter(), Num(6.0));
    assert_eq!(t.area(), Num(6.0));
    assert_eq!(t.heights(), Some([Num(2.4), Num(3.0), Num(4.0)]));
    assert_eq!(t.circumradius(), Some(Num(2.5)));
    assert_eq!(t.inradius(), Some(Num(1.0)));
    assert_eq!(t.medians(), [Num(2.5), Num(52f64.sqrt() / 2.0), Num(73f64.sqrt() / 2.0)]);
    assert_eq!(t.centroid(), pt(1.0, 4.0 / 3.0, 0.0));
    assert_eq!(t.normal(), Some(pt(0.0, 0.0, 1.0)));
    let reversed = Triangle::new(t.a, t.c, t.b);
    assert_eq!(reversed.normal(), Some(pt(0.0, 0.0, -1.0)));
    let angles = t.angles().unwrap();
    assert_eq!(angles[0], Num(std::f64::consts::FRAC_PI_2));
    assert_eq!(angles[1], Num(0.6f64.acos()));
    assert_eq!(angles[2], Num(std::f64::consts::PI - std::f64::consts::FRAC_PI_2 - 0.6f64.acos()));
    assert!(t.is_right());
    assert!(!t.is_isosceles());
    assert!(!t.is_equilateral());
    assert!(!t.is_golden());
    assert!(!t.is_collinear());
}

#[test]
fn permutation_invariance() {
    let t = Triangle::new(pt(-21.0, 2.0, -3.0), pt(84.0, -9.0, 12.0), pt(19.0, 32.0, 19.0));
    let sides: Vec<f64> = t.sides().iter().map(|s| s.0).collect();
    for p in permutations(t) {
        assert_eq!(p.area(), t.area());
        assert_eq!(p.perimeter(), t.perimeter());
        assert_eq!(p.aabb(), t.aabb());
        let ps: Vec<f64> = p.sides().iter().map(|s| s.0).collect();
        assert_eq!(sorted(ps), sorted(sides.clone()));
    }
}

#[test]
fn aabb_corners() {
    let t = Triangle::new(pt(-21.1, 2.0, -3.0), pt(84.2, -9.0, 12.9832), pt(-1.1, 32.0, 19.0));
    assert_eq!(t.aabb(), [pt(-21.1, -9.0, -3.0), pt(84.2, 32.0, 19.0)]);
    for p in permutations(t) {
        assert_eq!(p.aabb(), t.aabb());
    }
}

#[test]
fn angles_sum_to_pi() {
    let t = Triangle::new(pt(-21.0, 2.0, -3.0), pt(84.0, -9.0, 12.0), pt(19.0, 32.0, 19.0));
    let [alpha, beta, gamma] = t.angles().unwrap();
    assert!((alpha.0 + beta.0 + gamma.0 - std::f64::consts::PI).abs() <= 1e-12);
    assert!(alpha.0 > 0.0 && beta.0 > 0.0 && gamma.0 > 0.0);
}

#[test]
fn round_trip_on_tilted_plane() {
    let t = Triangle::new(pt(0.0, 0.0, 0.0), pt(1.0, 0.0, 1.0), pt(0.0, 1.0, 1.0));
    let p = pt(0.3, 0.5, 0.8);
    let w = t.cartesian_to_barycentric(&p);
    assert!((w.x.0 - 0.2).abs() <= 1e-12);
    assert!((w.y.0 - 0.3).abs() <= 1e-12);
    assert!((w.z.0 - 0.5).abs() <= 1e-12);
    let back = t.barycentric_to_cartesian(&w);
    assert!(p.distance_to(&back).0 <= 0.0001);
}

#[test]
fn barycentric_of_vertices() {
    let t = right_triangle();
    assert_eq!(t.cartesian_to_barycentric(&t.a), pt(1.0, 0.0, 0.0));
    assert_eq!(t.cartesian_to_barycentric(&t.b), pt(0.0, 1.0, 0.0));
    assert_eq!(t.cartesian_to_barycentric(&t.c), pt(0.0, 0.0, 1.0));
    assert_eq!(t.barycentric_to_cartesian(&pt(0.0, 0.5, 0.5)), pt(1.5, 2.0, 0.0));
}

#[test]
fn collinear_triangle_has_no_plane() {
    let t = Triangle::new(
        Point::new(Num(1.0f32), Num(2.0), Num(-3.0)),
        Point::new(Num(1.0f32), Num(2.0), Num(0.0)),
        Point::new(Num(1.0f32), Num(2.0), Num(19.0)),
    );
    assert!(t.is_collinear());
    assert_eq!(t.area(), Num(0.0));
    assert_eq!(t.angles(), None);
    assert_eq!(t.normal(), None);
    assert_eq!(t.circumradius(), None);
    assert_eq!(t.inradius(), None);
    assert_eq!(t.heights(), None);
    assert!(!t.is_right());
    let dir = Point::new(Num(1.0f32), Num(0.0), Num(0.0));
    let orig = Point::new(Num(0.0f32), Num(2.0), Num(0.0));
    assert_eq!(t.ray_intersection(&orig, &dir), None);
    assert_eq!(t.medians()[2], Num(20.5));
}

#[test]
fn equilateral_triangle() {
    let t = Triangle::new(pt(1.0, 0.0, 0.0), pt(0.0, 1.0, 0.0), pt(0.0, 0.0, 1.0));
    assert!(t.is_equilateral());
    assert!(t.is_isosceles());
    assert!(!t.is_right());
    for angle in t.angles().unwrap() {
        assert!((angle.0 - std::f64::consts::FRAC_PI_3).abs() <= 1e-12);
    }
    let ratio = t.inradius().unwrap().0 / t.circumradius().unwrap().0;
    assert!((ratio - 0.5).abs() <= 1e-12);
}

#[test]
fn golden_triangle() {
    let t = Triangle::new(pt(-0.5, 0.0, 0.0), pt(0.5, 0.0, 0.0), pt(0.0, 1.5388417685876268, 0.0));
    assert!(t.is_isosceles());
    assert!(!t.is_equilateral());
    assert!(t.is_golden());
    let plain = Triangle::new(pt(-0.5, 0.0, 0.0), pt(0.5, 0.0, 0.0), pt(0.0, 3.0, 0.0));
    assert!(plain.is_isosceles());
    assert!(!plain.is_golden());
}

#[test]
fn point_containment() {
    let t = Triangle::new(pt(0.0, 0.0, 0.0), pt(4.0, 0.0, 0.0), pt(0.0, 4.0, 0.0));
    assert!(t.has_point(pt(1.0, 1.0, 0.0)));
    assert!(t.has_point(pt(2.0, 0.0, 0.0)));
    assert!(t.has_point(pt(0.0, 0.0, 0.0)));
    assert!(!t.has_point(pt(5.0, 5.0, 0.0)));
    assert!(!t.has_point(pt(-1.0, 1.0, 0.0)));
    let reversed = Triangle::new(t.a, t.c, t.b);
    assert!(reversed.has_point(pt(1.0, 1.0, 0.0)));
    assert!(!reversed.has_point(pt(5.0, 5.0, 0.0)));
}

#[test]
fn ray_through_centroid() {
    let t = Triangle::new(pt(0.0, 0.0, 0.0), pt(1.0, 0.0, 0.0), pt(0.0, 1.0, 0.0));
    let c = t.centroid();
    let n = t.normal().unwrap();
    let orig = pt(c.x.0 - 5.0 * n.x.0, c.y.0 - 5.0 * n.y.0, c.z.0 - 5.0 * n.z.0);
    let hit = t.ray_intersection(&orig, &n).unwrap();
    assert!(hit.0 > 0.0);
    assert!((hit.0 - 5.0).abs() <= 1e-12);
    let w = t.cartesian_to_barycentric(&c);
    assert!(w.y.0 >= 0.0 && w.z.0 >= 0.0 && w.y.0 + w.z.0 <= 1.0);
    assert_eq!(t.ray_intersection(&pt(0.25, 0.25, -5.0), &pt(0.0, 0.0, 1.0)), Some(Num(5.0)));
    assert_eq!(t.ray_intersection(&pt(0.25, 0.25, 5.0), &pt(0.0, 0.0, 1.0)), Some(Num(-5.0)));
}

#[test]
fn ray_misses() {
    let t = Triangle::new(pt(0.0, 0.0, 0.0), pt(1.0, 0.0, 0.0), pt(0.0, 1.0, 0.0));
    assert_eq!(t.ray_intersection(&pt(0.25, 0.25, -5.0), &pt(1.0, 0.0, 0.0)), None);
    assert_eq!(t.ray_intersection(&pt(2.0, 2.0, -5.0), &pt(0.0, 0.0, 1.0)), None);
    assert_eq!(t.ray_intersection(&pt(-0.5, 0.25, -5.0), &pt(0.0, 0.0, 1.0)), None);
    assert_eq!(t.ray_intersection(&pt(0.25, -0.5, -5.0), &pt(0.0, 0.0, 1.0)), None);
}

#[test]
fn sorting_by_axis() {
    let t = Triangle::new(pt(3.0, 1.0, 9.0), pt(1.0, 3.0, 8.0), pt(2.0, 2.0, 7.0));
    assert!(!t.is_sorted_by('x'));
    let by_x = t.sorted_by('x');
    assert_eq!(by_x, Triangle::new(t.b, t.c, t.a));
    assert!(by_x.is_sorted_by('X'));
    assert!(by_x.is_sorted_by('0'));
    let by_z = t.sorted_by('2');
    assert_eq!(by_z, Triangle::new(t.c, t.b, t.a));
    assert!(by_z.is_sorted_by('z'));
    let by_y = t.sorted_by('q');
    assert_eq!(by_y, Triangle::new(t.a, t.c, t.b));
    assert!(!t.is_sorted_by('y'));
    assert!(by_y.is_sorted_by('Y'));
    let ties = Triangle::new(pt(1.0, 0.0, 0.0), pt(0.0, 5.0, 0.0), pt(1.0, 2.0, 0.0));
    assert_eq!(ties.sorted_by('x'), Triangle::new(ties.b, ties.a, ties.c));
    assert_eq!(Triangle::from_array([t.a, t.b, t.c]), t);
}

#[test]
fn sorting_keeps_signed_zeros_in_order() {
    let t = Triangle::new(pt(0.0, 0.0, 0.0), pt(-0.0, 1.0, 0.0), pt(1.0, 2.0, 0.0));
    let by_x = t.sorted_by('x');
    assert!(by_x.a.y.0 == 0.0 && by_x.b.y.0 == 1.0 && by_x.c.y.0 == 2.0);
    assert!(by_x.a.x.0.is_sign_positive() && by_x.b.x.0.is_sign_negative());
    let swapped = Triangle::new(t.b, t.a, t.c).sorted_by('x');
    assert!(swapped.a.x.0.is_sign_negative() && swapped.b.x.0.is_sign_positive());
    assert!(by_x.is_sorted_by('x'));
}

#[test]
fn nearly_collinear_area_is_zero_not_nan() {
    let t = Triangle::new(
        pt(0.0, 0.0, 0.0),
        pt(0.0938595867742349, 0.02834747652200631, 0.0),
        pt(0.2815787603227047, 0.08504242956601893, 0.0),
    );
    let area = t.area();
    assert!(!area.0.is_nan());
    assert_eq!(area, Num(0.0));
    assert!(t.is_collinear());
    assert_eq!(t.angles(), None);
    assert_eq!(t.normal(), None);
}

#[test]
fn area_agrees_with_cross_product() {
    let t = Triangle::new(pt(-21.0, 2.0, -3.0), pt(84.0, -9.0, 12.0), pt(19.0, 32.0, 19.0));
    let cross = t.b.minus(&t.a).cross(&t.c.minus(&t.a));
    let half = cross.distance_to(&Point::origin()).0 / 2.0;
    assert!((t.area().0 - half).abs() <= 1e-6 * half);
}
