//! Properties that hold across calls: invariance under the order of the
//! vertices, the bounding box, the zero vector, classification and rays
//! parallel to a triangle. Each names in `requires` the facts of the number
//! type that it rests on; the binary floating-point types have them all.
use vstd::prelude::*;

use crate::point::Point;
use crate::scalar::{
    spec_abs_of_zero_is_below_min_positive, spec_lt_is_asymmetric, spec_sqrt_is_not_negative,
    spec_squares_of_differences_agree, spec_total_le_is_total, spec_zero_is_stable, Arithmetic,
    Scalar,
};
use crate::triangle::{spec_insert3, spec_sorted3, Triangle};

verus! {

/// Sorting three values does not depend on their order: rotating them or
/// swapping the last two gives the same sorted triple.
pub proof fn lemma_sorted3_permutation<F: Scalar>(a: F, b: F, c: F)
    requires
        spec_total_le_is_total::<F>(),
    ensures
        spec_sorted3(b, c, a) == spec_sorted3(a, b, c),
        spec_sorted3(a, c, b) == spec_sorted3(a, b, c),
{
}

/// The sorted triple is ascending, and its ends are the least and the greatest
/// of the three values.
pub proof fn lemma_sorted3_bounds<F: Scalar>(a: F, b: F, c: F)
    requires
        spec_total_le_is_total::<F>(),
    ensures
        ({
            let (lo, mid, hi) = spec_sorted3(a, b, c);
            &&& lo.spec_total_le(mid) && mid.spec_total_le(hi)
            &&& lo.spec_total_le(a) && lo.spec_total_le(b) && lo.spec_total_le(c)
            &&& a.spec_total_le(hi) && b.spec_total_le(hi) && c.spec_total_le(hi)
            &&& (lo == a || lo == b || lo == c)
            &&& (hi == a || hi == b || hi == c)
        }),
{
}

/// The first corner of the bounding box holds the least of each coordinate
/// over the three vertices and the second the greatest.
pub proof fn lemma_aabb_is_bounding_box<F: Scalar>(t: Triangle<F>)
    requires
        spec_total_le_is_total::<F>(),
    ensures
        ({
            let (lo, hi) = t.spec_aabb();
            &&& forall|p: Point<F>|
                #![trigger p.x.spec_total_le(hi.x)]
                p == t.a || p == t.b || p == t.c ==> {
                    &&& lo.x.spec_total_le(p.x) && p.x.spec_total_le(hi.x)
                    &&& lo.y.spec_total_le(p.y) && p.y.spec_total_le(hi.y)
                    &&& lo.z.spec_total_le(p.z) && p.z.spec_total_le(hi.z)
                }
            &&& (lo.x == t.a.x || lo.x == t.b.x || lo.x == t.c.x)
            &&& (lo.y == t.a.y || lo.y == t.b.y || lo.y == t.c.y)
            &&& (lo.z == t.a.z || lo.z == t.b.z || lo.z == t.c.z)
            &&& (hi.x == t.a.x || hi.x == t.b.x || hi.x == t.c.x)
            &&& (hi.y == t.a.y || hi.y == t.b.y || hi.y == t.c.y)
            &&& (hi.z == t.a.z || hi.z == t.b.z || hi.z == t.c.z)
        }),
{
    lemma_sorted3_bounds(t.a.x, t.b.x, t.c.x);
    lemma_sorted3_bounds(t.a.y, t.b.y, t.c.y);
    lemma_sorted3_bounds(t.a.z, t.b.z, t.c.z);
}

/// The distance from `p` to `q` equals the distance from `q` to `p` where the
/// coordinate differences `p - q` are numbers.
pub proof fn lemma_distance_symmetric<F: Scalar>(p: Point<F>, q: Point<F>)
    requires
        spec_squares_of_differences_agree::<F>(),
        p.spec_minus(q).spec_is_number(),
    ensures
        p.spec_distance(q) == q.spec_distance(p),
{
}

/// Rotating the vertices `(a, b, c)` to `(b, c, a)` rotates the sides and
/// leaves the perimeter, the area and the bounding box unchanged.
pub proof fn lemma_rotation_invariance<F: Scalar>(t: Triangle<F>)
    requires
        spec_total_le_is_total::<F>(),
    ensures
        ({
            let r = Triangle { a: t.b, b: t.c, c: t.a };
            let (la, lb, lc) = t.spec_sides();
            &&& r.spec_sides() == (lb, lc, la)
            &&& r.spec_perimeter() == t.spec_perimeter()
            &&& r.spec_area() == t.spec_area()
            &&& r.spec_aabb() == t.spec_aabb()
        }),
{
    let (la, lb, lc) = t.spec_sides();
    lemma_sorted3_permutation(la, lb, lc);
    lemma_sorted3_permutation(t.a.x, t.b.x, t.c.x);
    lemma_sorted3_permutation(t.a.y, t.b.y, t.c.y);
    lemma_sorted3_permutation(t.a.z, t.b.z, t.c.z);
}

/// Swapping the vertices `b` and `c` swaps the sides opposite them and leaves
/// the perimeter, the area and the bounding box unchanged, where the
/// coordinate differences of the vertices are numbers. With rotation, this
/// covers every order of the vertices.
pub proof fn lemma_reflection_invariance<F: Scalar>(t: Triangle<F>)
    requires
        spec_total_le_is_total::<F>(),
        spec_squares_of_differences_agree::<F>(),
        t.spec_differences_are_numbers(),
    ensures
        ({
            let r = Triangle { a: t.a, b: t.c, c: t.b };
            let (la, lb, lc) = t.spec_sides();
            &&& r.spec_sides() == (la, lc, lb)
            &&& r.spec_perimeter() == t.spec_perimeter()
            &&& r.spec_area() == t.spec_area()
            &&& r.spec_aabb() == t.spec_aabb()
        }),
{
    lemma_distance_symmetric(t.b, t.c);
    lemma_distance_symmetric(t.c, t.a);
    lemma_distance_symmetric(t.a, t.b);
    let (la, lb, lc) = t.spec_sides();
    lemma_sorted3_permutation(la, lb, lc);
    lemma_sorted3_permutation(t.a.x, t.b.x, t.c.x);
    lemma_sorted3_permutation(t.a.y, t.b.y, t.c.y);
    lemma_sorted3_permutation(t.a.z, t.b.z, t.c.z);
}

/// The area is never below `0`: a negative Heron product gives `0`.
pub proof fn lemma_area_not_negative<F: Scalar>(t: Triangle<F>)
    requires
        spec_lt_is_asymmetric::<F>(),
        spec_sqrt_is_not_negative::<F>(),
    ensures
        !t.spec_area().spec_lt(F::spec_from_u8(0)),
{
    let zero = F::spec_from_u8(0);
    if t.spec_heron_product().spec_lt(zero) {
        assert(!zero.spec_lt(zero));
    }
}

/// The key of label `i` among three keys.
pub open spec fn spec_key_of<F>(i: int, ka: F, kb: F, kc: F) -> F {
    if i == 0 {
        ka
    } else if i == 1 {
        kb
    } else {
        kc
    }
}

/// Sorting by insertion, as `Triangle::sorted_by` does, is a stable sort:
/// with the items labelled `0, 1, 2` in input order, no key in the result is
/// less than the key before it, and of two items where neither key is less
/// than the other the earlier label comes first.
pub proof fn lemma_insert3_sorted_stable<F: Scalar>(ka: F, kb: F, kc: F)
    requires
        spec_lt_is_asymmetric::<F>(),
    ensures
        ({
            let (i, j, k) = spec_insert3(0int, 1int, 2int, ka, kb, kc);
            let (ki, kj, kk) = (
                spec_key_of(i, ka, kb, kc),
                spec_key_of(j, ka, kb, kc),
                spec_key_of(k, ka, kb, kc),
            );
            &&& !kj.spec_lt(ki)
            &&& !kk.spec_lt(kj)
            &&& (!ki.spec_lt(kj) ==> i < j)
            &&& (!kj.spec_lt(kk) ==> j < k)
            &&& (!ki.spec_lt(kk) && !kk.spec_lt(ki) ==> i < k)
        }),
{
}

/// Normalizing the zero vector gives the zero vector.
pub proof fn lemma_normalized_origin<F: Scalar>()
    requires
        spec_zero_is_stable::<F>(),
    ensures
        Point::<F>::spec_origin().spec_normalized() == Point::<F>::spec_origin(),
{
}

/// An equilateral triangle is isosceles.
pub proof fn lemma_equilateral_is_isosceles<F: Scalar>(t: Triangle<F>)
    requires
        t.spec_is_equilateral(),
    ensures
        t.spec_is_isosceles(),
{
}

/// A ray whose Möller–Trumbore determinant is `0`, as it is for a direction
/// parallel to the triangle's plane, does not hit the triangle.
pub proof fn lemma_parallel_ray_misses<F: Scalar>(t: Triangle<F>, orig: Point<F>, dir: Point<F>)
    requires
        spec_abs_of_zero_is_below_min_positive::<F>(),
        t.spec_ray_det(dir).spec_eq(F::spec_from_u8(0)),
    ensures
        !t.spec_ray_hits(orig, dir),
{
}

} // verus!
