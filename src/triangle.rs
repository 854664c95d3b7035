//! Triangles: metrics, classification, coordinate conversion, containment and
//! ray intersection.
use vstd::prelude::*;

use crate::point::{spec_square, Point};
use crate::scalar::{Arithmetic, Scalar};

verus! {

/// `a, b, c` arranged by ascending keys `ka, kb, kc` in the total order of the
/// number type; of two items with equal keys the earlier one stays first.
pub open spec fn spec_arrange3<T, F: Scalar>(a: T, b: T, c: T, ka: F, kb: F, kc: F) -> (T, T, T) {
    if ka.spec_total_le(kb) {
        if kb.spec_total_le(kc) {
            (a, b, c)
        } else if ka.spec_total_le(kc) {
            (a, c, b)
        } else {
            (c, a, b)
        }
    } else {
        if ka.spec_total_le(kc) {
            (b, a, c)
        } else if kb.spec_total_le(kc) {
            (b, c, a)
        } else {
            (c, b, a)
        }
    }
}

/// The three values in ascending total order.
pub open spec fn spec_sorted3<F: Scalar>(a: F, b: F, c: F) -> (F, F, F) {
    spec_arrange3(a, b, c, a, b, c)
}

/// Arranges three items by their keys, as `spec_arrange3` states.
fn arrange3<T: Copy, F: Scalar>(a: T, b: T, c: T, ka: F, kb: F, kc: F) -> (r: (T, T, T))
    ensures
        r == spec_arrange3(a, b, c, ka, kb, kc),
{
    if ka.total_le(kb) {
        if kb.total_le(kc) {
            (a, b, c)
        } else if ka.total_le(kc) {
            (a, c, b)
        } else {
            (c, a, b)
        }
    } else {
        if ka.total_le(kc) {
            (b, a, c)
        } else if kb.total_le(kc) {
            (b, c, a)
        } else {
            (c, b, a)
        }
    }
}

/// `a, b, c` sorted by insertion on their keys under the numeric order `<`:
/// `b` goes before `a` only where `kb < ka`, and `c` moves ahead of each item
/// only where its key is less than that item's.
pub open spec fn spec_insert3<T, F: Scalar>(a: T, b: T, c: T, ka: F, kb: F, kc: F) -> (T, T, T) {
    let (p, q, kp, kq) = if kb.spec_lt(ka) {
        (b, a, kb, ka)
    } else {
        (a, b, ka, kb)
    };
    if !kc.spec_lt(kq) {
        (p, q, c)
    } else if !kc.spec_lt(kp) {
        (p, c, q)
    } else {
        (c, p, q)
    }
}

/// Sorts three items by insertion, as `spec_insert3` states.
fn insert3<T: Copy, F: Scalar>(a: T, b: T, c: T, ka: F, kb: F, kc: F) -> (r: (T, T, T))
    ensures
        r == spec_insert3(a, b, c, ka, kb, kc),
{
    let (p, q, kp, kq) = if kb.lt(ka) {
        (b, a, kb, ka)
    } else {
        (a, b, ka, kb)
    };
    if !kc.lt(kq) {
        (p, q, c)
    } else if !kc.lt(kp) {
        (p, c, q)
    } else {
        (c, p, q)
    }
}

/// The angle opposite side `opp`, by the law of cosines:
/// `acos(((s1² + s2²) - opp²) / ((2·s1)·s2))`.
pub open spec fn spec_law_of_cosines<F: Scalar>(opp: F, s1: F, s2: F) -> F {
    spec_square(s1).spec_add(spec_square(s2)).spec_sub(spec_square(opp)).spec_div(
        F::spec_from_u8(2).spec_mul(s1).spec_mul(s2),
    ).spec_acos()
}

/// The median to side `opp`: `sqrt((2·s1² + 2·s2²) - opp²) / 2`.
pub open spec fn spec_median<F: Scalar>(opp: F, s1: F, s2: F) -> F {
    let two = F::spec_from_u8(2);
    two.spec_mul(spec_square(s1)).spec_add(two.spec_mul(spec_square(s2))).spec_sub(
        spec_square(opp),
    ).spec_sqrt().spec_div(two)
}

/// Twice the signed area of `(p, q, r)` projected on the x/y plane:
/// `(p.x - r.x)·(q.y - r.y) - (q.x - r.x)·(p.y - r.y)`.
pub open spec fn spec_sign<F: Scalar>(p: Point<F>, q: Point<F>, r: Point<F>) -> F {
    p.x.spec_sub(r.x).spec_mul(q.y.spec_sub(r.y)).spec_sub(
        q.x.spec_sub(r.x).spec_mul(p.y.spec_sub(r.y)),
    )
}

fn sign<F: Scalar>(p: &Point<F>, q: &Point<F>, r: &Point<F>) -> (d: F)
    ensures
        d == spec_sign(*p, *q, *r),
{
    p.x.sub(r.x).mul(q.y.sub(r.y)).sub(q.x.sub(r.x).mul(p.y.sub(r.y)))
}

fn law_of_cosines<F: Scalar>(opp: F, s1: F, s2: F) -> (r: F)
    ensures
        r == spec_law_of_cosines(opp, s1, s2),
{
    s1.mul(s1).add(s2.mul(s2)).sub(opp.mul(opp)).div(F::from_u8(2).mul(s1).mul(s2)).acos()
}

fn median<F: Scalar>(opp: F, s1: F, s2: F) -> (r: F)
    ensures
        r == spec_median(opp, s1, s2),
{
    let two = F::from_u8(2);
    two.mul(s1.mul(s1)).add(two.mul(s2.mul(s2))).sub(opp.mul(opp)).sqrt().div(two)
}

/// The coordinate of each vertex that `axis_name` chooses: `'x'`, `'X'`, `'0'`
/// for x; `'z'`, `'Z'`, `'2'` for z; y otherwise.
pub open spec fn spec_keys<F: Scalar>(t: Triangle<F>, axis_name: char) -> (F, F, F) {
    if axis_name == 'x' || axis_name == 'X' || axis_name == '0' {
        (t.a.x, t.b.x, t.c.x)
    } else if axis_name == 'z' || axis_name == 'Z' || axis_name == '2' {
        (t.a.z, t.b.z, t.c.z)
    } else {
        (t.a.y, t.b.y, t.c.y)
    }
}

fn keys<F: Scalar>(t: &Triangle<F>, axis_name: char) -> (r: (F, F, F))
    ensures
        r == spec_keys(*t, axis_name),
{
    match axis_name {
        'x' | 'X' | '0' => (t.a.x, t.b.x, t.c.x),
        'z' | 'Z' | '2' => (t.a.z, t.b.z, t.c.z),
        _ => (t.a.y, t.b.y, t.c.y),
    }
}

/// A triangle, given by its vertices in order.
#[derive(Debug, Clone, Copy, PartialEq, PartialOrd)]
pub struct Triangle<F> {
    pub a: Point<F>,
    pub b: Point<F>,
    pub c: Point<F>,
}

impl<F: Scalar> Triangle<F> {
    /// The side lengths `|b - c|, |c - a|, |a - b|`: side `i` lies opposite vertex `i`.
    pub open spec fn spec_sides(self) -> (F, F, F) {
        (self.b.spec_distance(self.c), self.c.spec_distance(self.a), self.a.spec_distance(self.b))
    }

    /// The side lengths in ascending total order.
    pub open spec fn spec_sorted_sides(self) -> (F, F, F) {
        let s = self.spec_sides();
        spec_sorted3(s.0, s.1, s.2)
    }

    /// The sum of the sides, smallest first: `(s0 + s1) + s2` over the sorted sides.
    pub open spec fn spec_perimeter(self) -> F {
        let s = self.spec_sorted_sides();
        s.0.spec_add(s.1).spec_add(s.2)
    }

    pub open spec fn spec_semiperimeter(self) -> F {
        self.spec_perimeter().spec_div(F::spec_from_u8(2))
    }

    /// Heron's formula, `sqrt` of the Heron product; where the product is below
    /// `0`, as rounding makes it for nearly collinear vertices, the area is `0`.
    pub open spec fn spec_area(self) -> F {
        let q = self.spec_heron_product();
        let zero = F::spec_from_u8(0);
        if q.spec_lt(zero) {
            zero
        } else {
            q.spec_sqrt()
        }
    }

    /// The product under the root of Heron's formula, over the semiperimeter
    /// `s` and the sorted sides: `((s·(s - s0))·(s - s1))·(s - s2)`.
    pub open spec fn spec_heron_product(self) -> F {
        let p = self.spec_semiperimeter();
        let s = self.spec_sorted_sides();
        p.spec_mul(p.spec_sub(s.0)).spec_mul(p.spec_sub(s.1)).spec_mul(p.spec_sub(s.2))
    }

    /// The vertices lie on one line: the area equals `0`.
    pub open spec fn spec_is_collinear(self) -> bool {
        self.spec_area().spec_eq(F::spec_from_u8(0))
    }

    /// The interior angles at `a`, `b` and `c`; the third is `(π - α) - β`.
    pub open spec fn spec_angles(self) -> (F, F, F) {
        let (la, lb, lc) = self.spec_sides();
        let alpha = spec_law_of_cosines(la, lb, lc);
        let beta = spec_law_of_cosines(lb, la, lc);
        (alpha, beta, F::spec_pi().spec_sub(alpha).spec_sub(beta))
    }

    /// The differences `b - c`, `c - a` and `a - b` that the sides are
    /// measured from are numbers: for floats, none is NaN.
    pub open spec fn spec_differences_are_numbers(self) -> bool {
        &&& self.b.spec_minus(self.c).spec_is_number()
        &&& self.c.spec_minus(self.a).spec_is_number()
        &&& self.a.spec_minus(self.b).spec_is_number()
    }

    pub open spec fn spec_is_equilateral(self) -> bool {
        let (la, lb, lc) = self.spec_sides();
        la.spec_eq(lb) && lb.spec_eq(lc)
    }

    pub open spec fn spec_is_isosceles(self) -> bool {
        let (la, lb, lc) = self.spec_sides();
        la.spec_eq(lb) || lb.spec_eq(lc) || lc.spec_eq(la)
    }

    /// The determinant of the Möller–Trumbore system: `(b - a) · (dir × (c - a))`.
    pub open spec fn spec_ray_det(self, dir: Point<F>) -> F {
        let e1 = self.b.spec_minus(self.a);
        let e2 = self.c.spec_minus(self.a);
        e1.spec_dot(dir.spec_cross(e2))
    }

    /// The first barycentric parameter of the hit: `((orig - a) · (dir × (c - a))) · (1 / det)`.
    pub open spec fn spec_ray_u(self, orig: Point<F>, dir: Point<F>) -> F {
        let e2 = self.c.spec_minus(self.a);
        let inv_det = F::spec_from_u8(1).spec_div(self.spec_ray_det(dir));
        orig.spec_minus(self.a).spec_dot(dir.spec_cross(e2)).spec_mul(inv_det)
    }

    /// The second barycentric parameter of the hit: `(dir · ((orig - a) × (b - a))) · (1 / det)`.
    pub open spec fn spec_ray_v(self, orig: Point<F>, dir: Point<F>) -> F {
        let e1 = self.b.spec_minus(self.a);
        let inv_det = F::spec_from_u8(1).spec_div(self.spec_ray_det(dir));
        dir.spec_dot(orig.spec_minus(self.a).spec_cross(e1)).spec_mul(inv_det)
    }

    /// The ray parameter of the hit: `((c - a) · ((orig - a) × (b - a))) · (1 / det)`.
    pub open spec fn spec_ray_t(self, orig: Point<F>, dir: Point<F>) -> F {
        let e1 = self.b.spec_minus(self.a);
        let e2 = self.c.spec_minus(self.a);
        let inv_det = F::spec_from_u8(1).spec_div(self.spec_ray_det(dir));
        e2.spec_dot(orig.spec_minus(self.a).spec_cross(e1)).spec_mul(inv_det)
    }

    /// The ray meets the triangle: the triangle is not collinear, `|det|` is not
    /// below the least positive value, `0 ≤ u ≤ 1`, `0 ≤ v` and `u + v ≤ 1`
    /// (each bound as a failed strict comparison).
    pub open spec fn spec_ray_hits(self, orig: Point<F>, dir: Point<F>) -> bool {
        let zero = F::spec_from_u8(0);
        let one = F::spec_from_u8(1);
        let u = self.spec_ray_u(orig, dir);
        let v = self.spec_ray_v(orig, dir);
        &&& !self.spec_is_collinear()
        &&& !self.spec_ray_det(dir).spec_abs().spec_lt(F::spec_min_positive())
        &&& !u.spec_lt(zero)
        &&& !one.spec_lt(u)
        &&& !v.spec_lt(zero)
        &&& !one.spec_lt(u.spec_add(v))
    }

    /// Barycentric weights `(u, v, w)` of `pt`, from the x/y components only:
    /// with `v0 = b - a`, `v1 = c - a`, `v2 = pt - a` and
    /// `den = 1 / (v0.x·v1.y - v1.x·v0.y)`, `v = (v2.x·v1.y - v1.x·v2.y)·den`,
    /// `w = (v0.x·v2.y - v2.x·v0.y)·den` and `u = (1 - v) - w`.
    pub open spec fn spec_to_barycentric(self, pt: Point<F>) -> Point<F> {
        let v0 = self.b.spec_minus(self.a);
        let v1 = self.c.spec_minus(self.a);
        let v2 = pt.spec_minus(self.a);
        let one = F::spec_from_u8(1);
        let den = one.spec_div(v0.x.spec_mul(v1.y).spec_sub(v1.x.spec_mul(v0.y)));
        let v = v2.x.spec_mul(v1.y).spec_sub(v1.x.spec_mul(v2.y)).spec_mul(den);
        let w = v0.x.spec_mul(v2.y).spec_sub(v2.x.spec_mul(v0.y)).spec_mul(den);
        Point { x: one.spec_sub(v).spec_sub(w), y: v, z: w }
    }

    /// `(u·a + v·b) + w·c`, coordinate by coordinate, for weights `(u, v, w)`.
    pub open spec fn spec_to_cartesian(self, pt: Point<F>) -> Point<F> {
        Point {
            x: pt.x.spec_mul(self.a.x).spec_add(pt.y.spec_mul(self.b.x)).spec_add(pt.z.spec_mul(self.c.x)),
            y: pt.x.spec_mul(self.a.y).spec_add(pt.y.spec_mul(self.b.y)).spec_add(pt.z.spec_mul(self.c.y)),
            z: pt.x.spec_mul(self.a.z).spec_add(pt.y.spec_mul(self.b.z)).spec_add(pt.z.spec_mul(self.c.z)),
        }
    }

    /// The corner of least coordinates and the corner of greatest coordinates
    /// of the axis-aligned bounding box; each axis is sorted on its own.
    pub open spec fn spec_aabb(self) -> (Point<F>, Point<F>) {
        let sx = spec_sorted3(self.a.x, self.b.x, self.c.x);
        let sy = spec_sorted3(self.a.y, self.b.y, self.c.y);
        let sz = spec_sorted3(self.a.z, self.b.z, self.c.z);
        (Point { x: sx.0, y: sy.0, z: sz.0 }, Point { x: sx.2, y: sy.2, z: sz.2 })
    }

    /// Creates a new triangle.
    pub fn new(a: Point<F>, b: Point<F>, c: Point<F>) -> (r: Triangle<F>)
        ensures
            r == (Triangle { a, b, c }),
    {
        Triangle { a, b, c }
    }

    /// Creates a new triangle from an array of its vertices.
    pub fn from_array(points: [Point<F>; 3]) -> (r: Triangle<F>)
        ensures
            r == (Triangle { a: points[0], b: points[1], c: points[2] }),
    {
        Triangle { a: points[0], b: points[1], c: points[2] }
    }

    /// Distance from the ray's origin to where it meets the triangle, in units
    /// of `ray_dir`, by the Möller–Trumbore algorithm. `None` where the triangle
    /// is collinear, where the ray runs parallel to its plane, or where it
    /// passes outside. A hit behind the origin gives a negative value.
    pub fn ray_intersection(&self, ray_orig: &Point<F>, ray_dir: &Point<F>) -> (r: Option<F>)
        ensures
            r.is_some() <==> self.spec_ray_hits(*ray_orig, *ray_dir),
            r.is_some() ==> r.unwrap() == self.spec_ray_t(*ray_orig, *ray_dir),
    {
        if self.is_collinear() {
            return None;
        }
        let e1 = self.b.minus(&self.a);
        let e2 = self.c.minus(&self.a);
        let pvec = ray_dir.cross(&e2);
        let det = e1.dot(&pvec);
        let zero = F::from_u8(0);
        let one = F::from_u8(1);
        if det.abs().lt(F::min_positive()) {
            return None;
        }
        let inv_det = one.div(det);
        let tvec = ray_orig.minus(&self.a);
        let u = tvec.dot(&pvec).mul(inv_det);
        if u.lt(zero) || one.lt(u) {
            return None;
        }
        let qvec = tvec.cross(&e1);
        let v = ray_dir.dot(&qvec).mul(inv_det);
        if v.lt(zero) || one.lt(u.add(v)) {
            return None;
        }
        Some(e2.dot(&qvec).mul(inv_det))
    }

    /// Barycentric coordinates `(u, v, w)` of a point, returned as a `Point`.
    /// Only the x/y components enter the solve, so the result is exact only for
    /// triangles whose plane is not perpendicular to the x/y plane.
    pub fn cartesian_to_barycentric(&self, pt: &Point<F>) -> (r: Point<F>)
        ensures
            r == self.spec_to_barycentric(*pt),
    {
        let v0 = self.b.minus(&self.a);
        let v1 = self.c.minus(&self.a);
        let v2 = pt.minus(&self.a);
        let one = F::from_u8(1);
        let den = one.div(v0.x.mul(v1.y).sub(v1.x.mul(v0.y)));
        let v = v2.x.mul(v1.y).sub(v1.x.mul(v2.y)).mul(den);
        let w = v0.x.mul(v2.y).sub(v2.x.mul(v0.y)).mul(den);
        let u = one.sub(v).sub(w);
        Point { x: u, y: v, z: w }
    }

    /// Cartesian coordinates of the point with barycentric weights `pt`.
    pub fn barycentric_to_cartesian(&self, pt: &Point<F>) -> (r: Point<F>)
        ensures
            r == self.spec_to_cartesian(*pt),
    {
        let x = pt.x.mul(self.a.x).add(pt.y.mul(self.b.x)).add(pt.z.mul(self.c.x));
        let y = pt.x.mul(self.a.y).add(pt.y.mul(self.b.y)).add(pt.z.mul(self.c.y));
        let z = pt.x.mul(self.a.z).add(pt.y.mul(self.b.z)).add(pt.z.mul(self.c.z));
        Point { x, y, z }
    }

    /// The two opposite corners of the axis-aligned bounding box: least
    /// coordinates first.
    pub fn aabb(&self) -> (r: [Point<F>; 2])
        ensures
            r[0] == self.spec_aabb().0,
            r[1] == self.spec_aabb().1,
    {
        let (x0, _, x2) = arrange3(self.a.x, self.b.x, self.c.x, self.a.x, self.b.x, self.c.x);
        let (y0, _, y2) = arrange3(self.a.y, self.b.y, self.c.y, self.a.y, self.b.y, self.c.y);
        let (z0, _, z2) = arrange3(self.a.z, self.b.z, self.c.z, self.a.z, self.b.z, self.c.z);
        [Point { x: x0, y: y0, z: z0 }, Point { x: x2, y: y2, z: z2 }]
    }

    /// Lengths of the sides opposite `a`, `b` and `c`.
    pub fn sides(&self) -> (r: [F; 3])
        ensures
            r[0] == self.spec_sides().0,
            r[1] == self.spec_sides().1,
            r[2] == self.spec_sides().2,
    {
        [self.b.distance_to(&self.c), self.c.distance_to(&self.a), self.a.distance_to(&self.b)]
    }

    /// The side lengths in ascending total order.
    fn sorted_sides(&self) -> (r: (F, F, F))
        ensures
            r == self.spec_sorted_sides(),
    {
        let s = self.sides();
        arrange3(s[0], s[1], s[2], s[0], s[1], s[2])
    }

    /// Perimeter of the triangle. The sides are added smallest first, so the
    /// result does not depend on the order of the vertices.
    pub fn perimeter(&self) -> (r: F)
        ensures
            r == self.spec_perimeter(),
    {
        let (s0, s1, s2) = self.sorted_sides();
        s0.add(s1).add(s2)
    }

    /// Half the perimeter.
    pub fn semiperimeter(&self) -> (r: F)
        ensures
            r == self.spec_semiperimeter(),
    {
        self.perimeter().div(F::from_u8(2))
    }

    /// Area of the triangle, by Heron's formula; `0` where rounding makes the
    /// product under the root negative.
    pub fn area(&self) -> (r: F)
        ensures
            r == self.spec_area(),
    {
        let p = self.semiperimeter();
        let (s0, s1, s2) = self.sorted_sides();
        let q = p.mul(p.sub(s0)).mul(p.sub(s1)).mul(p.sub(s2));
        let zero = F::from_u8(0);
        if q.lt(zero) {
            zero
        } else {
            q.sqrt()
        }
    }

    /// Whether the vertices lie on one line: the area is exactly `0`.
    pub fn is_collinear(&self) -> (r: bool)
        ensures
            r == self.spec_is_collinear(),
    {
        self.area().eq(F::from_u8(0))
    }

    /// The interior angles at `a`, `b` and `c`: the first two by the law of
    /// cosines, the third as `(π - α) - β`. `None` where the triangle is collinear.
    pub fn angles(&self) -> (r: Option<[F; 3]>)
        ensures
            r.is_none() <==> self.spec_is_collinear(),
            r.is_some() ==> r.unwrap()[0] == self.spec_angles().0,
            r.is_some() ==> r.unwrap()[1] == self.spec_angles().1,
            r.is_some() ==> r.unwrap()[2] == self.spec_angles().2,
    {
        if self.is_collinear() {
            return None;
        }
        let s = self.sides();
        let alpha = law_of_cosines(s[0], s[1], s[2]);
        let beta = law_of_cosines(s[1], s[0], s[2]);
        let gamma = F::pi().sub(alpha).sub(beta);
        Some([alpha, beta, gamma])
    }

    /// The heights onto the sides opposite `a`, `b` and `c`: `(2·area) / side`.
    /// `None` where the triangle is collinear.
    pub fn heights(&self) -> (r: Option<[F; 3]>)
        ensures
            r.is_none() <==> self.spec_is_collinear(),
            r.is_some() ==> ({
                let da = F::spec_from_u8(2).spec_mul(self.spec_area());
                let (la, lb, lc) = self.spec_sides();
                &&& r.unwrap()[0] == da.spec_div(la)
                &&& r.unwrap()[1] == da.spec_div(lb)
                &&& r.unwrap()[2] == da.spec_div(lc)
            }),
    {
        if self.is_collinear() {
            return None;
        }
        let double_area = F::from_u8(2).mul(self.area());
        let s = self.sides();
        Some([double_area.div(s[0]), double_area.div(s[1]), double_area.div(s[2])])
    }

    /// The medians to the sides opposite `a`, `b` and `c`, from the side
    /// lengths; defined for collinear triangles too.
    pub fn medians(&self) -> (r: [F; 3])
        ensures
            ({
                let (la, lb, lc) = self.spec_sides();
                &&& r[0] == spec_median(la, lb, lc)
                &&& r[1] == spec_median(lb, lc, la)
                &&& r[2] == spec_median(lc, la, lb)
            }),
    {
        let s = self.sides();
        [median(s[0], s[1], s[2]), median(s[1], s[2], s[0]), median(s[2], s[0], s[1])]
    }

    /// Radius of the circle through the three vertices: `((la·lb)·lc) / (4·area)`.
    /// `None` where the triangle is collinear.
    pub fn circumradius(&self) -> (r: Option<F>)
        ensures
            r.is_none() <==> self.spec_is_collinear(),
            r.is_some() ==> r.unwrap() == ({
                let (la, lb, lc) = self.spec_sides();
                la.spec_mul(lb).spec_mul(lc).spec_div(F::spec_from_u8(4).spec_mul(self.spec_area()))
            }),
    {
        if self.is_collinear() {
            return None;
        }
        let s = self.sides();
        Some(s[0].mul(s[1]).mul(s[2]).div(F::from_u8(4).mul(self.area())))
    }

    /// Radius of the circle tangent to the three sides: `area / semiperimeter`.
    /// `None` where the triangle is collinear.
    pub fn inradius(&self) -> (r: Option<F>)
        ensures
            r.is_none() <==> self.spec_is_collinear(),
            r.is_some() ==> r.unwrap() == self.spec_area().spec_div(self.spec_semiperimeter()),
    {
        if self.is_collinear() {
            return None;
        }
        Some(self.area().div(self.semiperimeter()))
    }

    /// Unit normal `normalized((b - a) × (c - a))`; its direction follows the
    /// order of the vertices. `None` where the triangle is collinear.
    pub fn normal(&self) -> (r: Option<Point<F>>)
        ensures
            r.is_none() <==> self.spec_is_collinear(),
            r.is_some() ==> r.unwrap() == self.b.spec_minus(self.a).spec_cross(
                self.c.spec_minus(self.a),
            ).spec_normalized(),
    {
        if self.is_collinear() {
            return None;
        }
        let u = self.b.minus(&self.a);
        let v = self.c.minus(&self.a);
        Some(u.cross(&v).normalized())
    }

    /// The centroid: the mean `((a + b) + c) / 3` of each coordinate.
    pub fn centroid(&self) -> (r: Point<F>)
        ensures
            r == self.a.spec_plus(self.b).spec_plus(self.c).spec_scaled_down(F::spec_from_u8(3)),
    {
        let three = F::from_u8(3);
        Point {
            x: self.a.x.add(self.b.x).add(self.c.x).div(three),
            y: self.a.y.add(self.b.y).add(self.c.y).div(three),
            z: self.a.z.add(self.b.z).add(self.c.z).div(three),
        }
    }

    /// Whether `pt` lies inside the triangle or on its boundary, judged on the
    /// x/y projection: the point is outside exactly where the signed areas of
    /// `(pt, a, b)`, `(pt, b, c)` and `(pt, c, a)` include both a negative and
    /// a positive one.
    pub fn has_point(&self, pt: Point<F>) -> (r: bool)
        ensures
            r == !({
                let zero = F::spec_from_u8(0);
                let d1 = spec_sign(pt, self.a, self.b);
                let d2 = spec_sign(pt, self.b, self.c);
                let d3 = spec_sign(pt, self.c, self.a);
                &&& (d1.spec_lt(zero) || d2.spec_lt(zero) || d3.spec_lt(zero))
                &&& (zero.spec_lt(d1) || zero.spec_lt(d2) || zero.spec_lt(d3))
            }),
    {
        let zero = F::from_u8(0);
        let d1 = sign(&pt, &self.a, &self.b);
        let d2 = sign(&pt, &self.b, &self.c);
        let d3 = sign(&pt, &self.c, &self.a);
        let has_neg = d1.lt(zero) || d2.lt(zero) || d3.lt(zero);
        let has_pos = zero.lt(d1) || zero.lt(d2) || zero.lt(d3);
        !(has_neg && has_pos)
    }

    /// All three sides are equal.
    pub fn is_equilateral(&self) -> (r: bool)
        ensures
            r == self.spec_is_equilateral(),
    {
        let s = self.sides();
        s[0].eq(s[1]) && s[1].eq(s[2])
    }

    /// Some two sides are equal.
    pub fn is_isosceles(&self) -> (r: bool)
        ensures
            r == self.spec_is_isosceles(),
    {
        let s = self.sides();
        s[0].eq(s[1]) || s[1].eq(s[2]) || s[2].eq(s[0])
    }

    /// The triangle is not collinear and one of its angles equals `π/2`.
    pub fn is_right(&self) -> (r: bool)
        ensures
            r == (!self.spec_is_collinear() && ({
                let (alpha, beta, gamma) = self.spec_angles();
                let half_pi = F::spec_frac_pi_2();
                alpha.spec_eq(half_pi) || beta.spec_eq(half_pi) || gamma.spec_eq(half_pi)
            })),
    {
        match self.angles() {
            None => false,
            Some(angles) => {
                let half_pi = F::frac_pi_2();
                angles[0].eq(half_pi) || angles[1].eq(half_pi) || angles[2].eq(half_pi)
            },
        }
    }

    /// The triangle is isosceles and its longest side divided by its shortest
    /// equals the golden ratio `(1 + sqrt(5)) / 2`.
    pub fn is_golden(&self) -> (r: bool)
        ensures
            r == (self.spec_is_isosceles() && ({
                let s = self.spec_sorted_sides();
                s.2.spec_div(s.0).spec_eq(
                    F::spec_from_u8(1).spec_add(F::spec_from_u8(5).spec_sqrt()).spec_div(
                        F::spec_from_u8(2),
                    ),
                )
            })),
    {
        if !self.is_isosceles() {
            return false;
        }
        let (min, _, max) = self.sorted_sides();
        let golden = F::from_u8(1).add(F::from_u8(5).sqrt()).div(F::from_u8(2));
        max.div(min).eq(golden)
    }

    /// Whether the vertices are in ascending order (`<=`) of one coordinate:
    /// `'x'`, `'X'` or `'0'` chooses x, `'z'`, `'Z'` or `'2'` chooses z, any
    /// other character y.
    pub fn is_sorted_by(self, axis_name: char) -> (r: bool)
        ensures
            r == ({
                let (ka, kb, kc) = spec_keys(self, axis_name);
                ka.spec_le(kb) && kb.spec_le(kc)
            }),
    {
        let (ka, kb, kc) = keys(&self, axis_name);
        ka.le(kb) && kb.le(kc)
    }

    /// The triangle with its vertices sorted by one coordinate, chosen as in
    /// `is_sorted_by`: a stable insertion by the numeric order `<`, so a vertex
    /// moves ahead of another only where its key is less. For keys that are
    /// numbers this is the stable ascending sort, and vertices with equal keys
    /// (`-0.0` and `+0.0` among them) keep their order.
    pub fn sorted_by(self, axis_name: char) -> (r: Triangle<F>)
        ensures
            ({
                let (ka, kb, kc) = spec_keys(self, axis_name);
                let (p, q, s) = spec_insert3(self.a, self.b, self.c, ka, kb, kc);
                r == (Triangle { a: p, b: q, c: s })
            }),
    {
        let (ka, kb, kc) = keys(&self, axis_name);
        let (p, q, s) = insert3(self.a, self.b, self.c, ka, kb, kc);
        Triangle::from_array([p, q, s])
    }
}

} // verus!
