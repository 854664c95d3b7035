//! Points of three-dimensional space and their vector algebra.
use vstd::prelude::*;

use crate::scalar::{Arithmetic, Scalar};

verus! {

/// A point, or a vector, of three-dimensional space.
#[derive(Debug, Clone, Copy, PartialEq, PartialOrd)]
pub struct Point<F> {
    pub x: F,
    pub y: F,
    pub z: F,
}

/// `d · d`, the square of a coordinate difference.
pub open spec fn spec_square<F: Scalar>(d: F) -> F {
    d.spec_mul(d)
}

impl<F: Scalar> Point<F> {
    /// The origin, whose coordinates are `0`.
    pub open spec fn spec_origin() -> Point<F> {
        Point { x: F::spec_from_u8(0), y: F::spec_from_u8(0), z: F::spec_from_u8(0) }
    }

    pub open spec fn spec_plus(self, o: Point<F>) -> Point<F> {
        Point { x: self.x.spec_add(o.x), y: self.y.spec_add(o.y), z: self.z.spec_add(o.z) }
    }

    pub open spec fn spec_minus(self, o: Point<F>) -> Point<F> {
        Point { x: self.x.spec_sub(o.x), y: self.y.spec_sub(o.y), z: self.z.spec_sub(o.z) }
    }

    /// Each coordinate divided by `d`.
    pub open spec fn spec_scaled_down(self, d: F) -> Point<F> {
        Point { x: self.x.spec_div(d), y: self.y.spec_div(d), z: self.z.spec_div(d) }
    }

    /// Each coordinate is a number: for floats, none is NaN.
    pub open spec fn spec_is_number(self) -> bool {
        &&& self.x.spec_eq(self.x)
        &&& self.y.spec_eq(self.y)
        &&& self.z.spec_eq(self.z)
    }

    /// The cross product `self × o`.
    pub open spec fn spec_cross(self, o: Point<F>) -> Point<F> {
        Point {
            x: self.y.spec_mul(o.z).spec_sub(o.y.spec_mul(self.z)),
            y: self.z.spec_mul(o.x).spec_sub(o.z.spec_mul(self.x)),
            z: self.x.spec_mul(o.y).spec_sub(o.x.spec_mul(self.y)),
        }
    }

    /// The dot product, summed as `(x·x' + y·y') + z·z'`.
    pub open spec fn spec_dot(self, o: Point<F>) -> F {
        self.x.spec_mul(o.x).spec_add(self.y.spec_mul(o.y)).spec_add(self.z.spec_mul(o.z))
    }

    /// The Euclidean distance `sqrt((Δx² + Δy²) + Δz²)`.
    pub open spec fn spec_distance(self, o: Point<F>) -> F {
        spec_square(self.x.spec_sub(o.x)).spec_add(spec_square(self.y.spec_sub(o.y))).spec_add(
            spec_square(self.z.spec_sub(o.z)),
        ).spec_sqrt()
    }

    /// The length of the vector, with `1` in place of a length equal to `0`.
    pub open spec fn spec_norm_divisor(self) -> F {
        let n = self.spec_distance(Self::spec_origin());
        if n.spec_eq(F::spec_from_u8(0)) {
            F::spec_from_u8(1)
        } else {
            n
        }
    }

    /// Each coordinate divided by the length of the vector (the vector itself
    /// where that length is `0`).
    pub open spec fn spec_normalized(self) -> Point<F> {
        self.spec_scaled_down(self.spec_norm_divisor())
    }

    /// Creates a new point.
    pub fn new(x: F, y: F, z: F) -> (r: Point<F>)
        ensures
            r == (Point { x, y, z }),
    {
        Point { x, y, z }
    }

    /// The origin.
    pub fn origin() -> (r: Point<F>)
        ensures
            r == Self::spec_origin(),
    {
        let zero = F::from_u8(0);
        Point { x: zero, y: zero, z: zero }
    }

    /// Componentwise sum: the named form of `+`.
    pub fn plus(&self, pt: &Point<F>) -> (r: Point<F>)
        ensures
            r == self.spec_plus(*pt),
    {
        Point { x: self.x.add(pt.x), y: self.y.add(pt.y), z: self.z.add(pt.z) }
    }

    /// Componentwise difference `self - pt`: the named form of `-`.
    pub fn minus(&self, pt: &Point<F>) -> (r: Point<F>)
        ensures
            r == self.spec_minus(*pt),
    {
        Point { x: self.x.sub(pt.x), y: self.y.sub(pt.y), z: self.z.sub(pt.z) }
    }

    /// Cross product of two vectors.
    pub fn cross(&self, pt: &Point<F>) -> (r: Point<F>)
        ensures
            r == self.spec_cross(*pt),
    {
        Point {
            x: self.y.mul(pt.z).sub(pt.y.mul(self.z)),
            y: self.z.mul(pt.x).sub(pt.z.mul(self.x)),
            z: self.x.mul(pt.y).sub(pt.x.mul(self.y)),
        }
    }

    /// Dot product of two vectors.
    pub fn dot(&self, pt: &Point<F>) -> (r: F)
        ensures
            r == self.spec_dot(*pt),
    {
        self.x.mul(pt.x).add(self.y.mul(pt.y)).add(self.z.mul(pt.z))
    }

    /// Euclidean distance to another point.
    pub fn distance_to(&self, pt: &Point<F>) -> (r: F)
        ensures
            r == self.spec_distance(*pt),
    {
        let dx = self.x.sub(pt.x);
        let dy = self.y.sub(pt.y);
        let dz = self.z.sub(pt.z);
        dx.mul(dx).add(dy.mul(dy)).add(dz.mul(dz)).sqrt()
    }

    /// The vector scaled to length one; the zero vector is returned as it is,
    /// by dividing it by `1`.
    pub fn normalized(&self) -> (r: Point<F>)
        ensures
            r == self.spec_normalized(),
    {
        let mut n = self.distance_to(&Self::origin());
        if n.eq(F::from_u8(0)) {
            n = F::from_u8(1);
        }
        Point { x: self.x.div(n), y: self.y.div(n), z: self.z.div(n) }
    }
}

impl<F: Scalar> std::ops::Add for Point<F> {
    type Output = Point<F>;

    /// Componentwise sum.
    fn add(self, rhs: Point<F>) -> (r: Point<F>) {
        self.plus(&rhs)
    }
}

impl<F: Scalar> std::ops::Sub for Point<F> {
    type Output = Point<F>;

    /// Componentwise difference.
    fn sub(self, rhs: Point<F>) -> (r: Point<F>) {
        self.minus(&rhs)
    }
}

impl<F: Scalar> vstd::std_specs::ops::AddSpecImpl for Point<F> {
    open spec fn obeys_add_spec() -> bool {
        true
    }

    open spec fn add_req(self, rhs: Point<F>) -> bool {
        true
    }

    open spec fn add_spec(self, rhs: Point<F>) -> Point<F> {
        self.spec_plus(rhs)
    }
}

impl<F: Scalar> vstd::std_specs::ops::SubSpecImpl for Point<F> {
    open spec fn obeys_sub_spec() -> bool {
        true
    }

    open spec fn sub_req(self, rhs: Point<F>) -> bool {
        true
    }

    open spec fn sub_spec(self, rhs: Point<F>) -> Point<F> {
        self.spec_minus(rhs)
    }
}

} // verus!
