//! The capabilities that the geometry asks of its number type.
use vstd::prelude::*;

verus! {

/// The binary operations of a number type.
pub enum Binary {
    Add,
    Sub,
    Mul,
    Div,
}

/// The unary operations of a number type.
pub enum Unary {
    Sqrt,
    Acos,
    Abs,
}

/// The comparisons of a number type.
pub enum Relation {
    /// Numeric equality (for floats: `==`, under which NaN equals nothing).
    Eq,
    /// Numeric order (for floats: `<`).
    Lt,
    /// Numeric order (for floats: `<=`).
    Le,
    /// A total order on all values (for floats: IEEE 754 `totalOrder`, as
    /// `total_cmp` computes it).
    TotalLe,
}

/// The constants of a number type.
pub enum Constant {
    /// A small natural number.
    Small(u8),
    Pi,
    FracPi2,
    /// The least positive normal value.
    MinPositive,
}

/// A number type for coordinates: the four field operations, `sqrt`, `acos`,
/// `abs`, comparisons, small integers, `π`, `π/2` and the least positive value.
///
/// A caller implements it for the type it computes in (`f32`, `f64` wrapped
/// in a type of its own); what is proved of the geometry then holds of every
/// implementation whose operations meet the contracts below. The four spec
/// functions are never called when the program runs.
///
/// The spec functions name what each operation returns, so that the geometry
/// can state which operations it performs and in which order. To the contracts
/// a result depends on the operation and its operands alone; for the binary
/// floating-point types this holds up to the sign and payload of a NaN, which
/// Rust leaves open.
pub trait Scalar: Copy + Sized {
    spec fn spec_binary(op: Binary, a: Self, b: Self) -> Self;

    spec fn spec_unary(op: Unary, a: Self) -> Self;

    spec fn spec_relation(rel: Relation, a: Self, b: Self) -> bool;

    spec fn spec_constant(c: Constant) -> Self;

    fn add(self, rhs: Self) -> (r: Self)
        ensures
            r == Self::spec_binary(Binary::Add, self, rhs),
    ;

    fn sub(self, rhs: Self) -> (r: Self)
        ensures
            r == Self::spec_binary(Binary::Sub, self, rhs),
    ;

    fn mul(self, rhs: Self) -> (r: Self)
        ensures
            r == Self::spec_binary(Binary::Mul, self, rhs),
    ;

    fn div(self, rhs: Self) -> (r: Self)
        ensures
            r == Self::spec_binary(Binary::Div, self, rhs),
    ;

    fn sqrt(self) -> (r: Self)
        ensures
            r == Self::spec_unary(Unary::Sqrt, self),
    ;

    fn acos(self) -> (r: Self)
        ensures
            r == Self::spec_unary(Unary::Acos, self),
    ;

    fn abs(self) -> (r: Self)
        ensures
            r == Self::spec_unary(Unary::Abs, self),
    ;

    fn eq(self, rhs: Self) -> (r: bool)
        ensures
            r == Self::spec_relation(Relation::Eq, self, rhs),
    ;

    fn lt(self, rhs: Self) -> (r: bool)
        ensures
            r == Self::spec_relation(Relation::Lt, self, rhs),
    ;

    fn le(self, rhs: Self) -> (r: bool)
        ensures
            r == Self::spec_relation(Relation::Le, self, rhs),
    ;

    fn total_le(self, rhs: Self) -> (r: bool)
        ensures
            r == Self::spec_relation(Relation::TotalLe, self, rhs),
    ;

    fn from_u8(n: u8) -> (r: Self)
        ensures
            r == Self::spec_constant(Constant::Small(n)),
    ;

    fn pi() -> (r: Self)
        ensures
            r == Self::spec_constant(Constant::Pi),
    ;

    fn frac_pi_2() -> (r: Self)
        ensures
            r == Self::spec_constant(Constant::FracPi2),
    ;

    fn min_positive() -> (r: Self)
        ensures
            r == Self::spec_constant(Constant::MinPositive),
    ;
}

/// The operations of a [`Scalar`] under their own names, for contracts.
pub trait Arithmetic: Scalar {
    spec fn spec_add(self, rhs: Self) -> Self;

    spec fn spec_sub(self, rhs: Self) -> Self;

    spec fn spec_mul(self, rhs: Self) -> Self;

    spec fn spec_div(self, rhs: Self) -> Self;

    spec fn spec_sqrt(self) -> Self;

    spec fn spec_acos(self) -> Self;

    spec fn spec_abs(self) -> Self;

    spec fn spec_eq(self, rhs: Self) -> bool;

    spec fn spec_lt(self, rhs: Self) -> bool;

    spec fn spec_le(self, rhs: Self) -> bool;

    spec fn spec_total_le(self, rhs: Self) -> bool;

    spec fn spec_from_u8(n: u8) -> Self;

    spec fn spec_pi() -> Self;

    spec fn spec_frac_pi_2() -> Self;

    spec fn spec_min_positive() -> Self;
}

impl<F: Scalar> Arithmetic for F {
    open spec fn spec_add(self, rhs: Self) -> Self {
        F::spec_binary(Binary::Add, self, rhs)
    }

    open spec fn spec_sub(self, rhs: Self) -> Self {
        F::spec_binary(Binary::Sub, self, rhs)
    }

    open spec fn spec_mul(self, rhs: Self) -> Self {
        F::spec_binary(Binary::Mul, self, rhs)
    }

    open spec fn spec_div(self, rhs: Self) -> Self {
        F::spec_binary(Binary::Div, self, rhs)
    }

    open spec fn spec_sqrt(self) -> Self {
        F::spec_unary(Unary::Sqrt, self)
    }

    open spec fn spec_acos(self) -> Self {
        F::spec_unary(Unary::Acos, self)
    }

    open spec fn spec_abs(self) -> Self {
        F::spec_unary(Unary::Abs, self)
    }

    open spec fn spec_eq(self, rhs: Self) -> bool {
        F::spec_relation(Relation::Eq, self, rhs)
    }

    open spec fn spec_lt(self, rhs: Self) -> bool {
        F::spec_relation(Relation::Lt, self, rhs)
    }

    open spec fn spec_le(self, rhs: Self) -> bool {
        F::spec_relation(Relation::Le, self, rhs)
    }

    open spec fn spec_total_le(self, rhs: Self) -> bool {
        F::spec_relation(Relation::TotalLe, self, rhs)
    }

    open spec fn spec_from_u8(n: u8) -> Self {
        F::spec_constant(Constant::Small(n))
    }

    open spec fn spec_pi() -> Self {
        F::spec_constant(Constant::Pi)
    }

    open spec fn spec_frac_pi_2() -> Self {
        F::spec_constant(Constant::FracPi2)
    }

    open spec fn spec_min_positive() -> Self {
        F::spec_constant(Constant::MinPositive)
    }
}

/// `total_le` is a total order: total, antisymmetric and transitive. The
/// binary floating-point types have this of `total_cmp`.
pub open spec fn spec_total_le_is_total<F: Scalar>() -> bool {
    forall|a: F, b: F, c: F|
        {
            &&& (#[trigger] a.spec_total_le(b) || b.spec_total_le(a))
            &&& (a.spec_total_le(b) && b.spec_total_le(a) ==> a == b)
            &&& (a.spec_total_le(b) && #[trigger] b.spec_total_le(c) ==> a.spec_total_le(c))
        }
}

/// `<` is asymmetric: no two values are each less than the other.
pub open spec fn spec_lt_is_asymmetric<F: Scalar>() -> bool {
    forall|a: F, b: F| #[trigger] a.spec_lt(b) ==> !b.spec_lt(a)
}

/// The root of a value not below `0` is not below `0` (for floats: `sqrt` of
/// `+0.0`, `-0.0`, a positive value or infinity, and NaN is below nothing).
pub open spec fn spec_sqrt_is_not_negative<F: Scalar>() -> bool {
    forall|x: F|
        !x.spec_lt(F::spec_from_u8(0)) ==> !(#[trigger] x.spec_sqrt()).spec_lt(F::spec_from_u8(0))
}

/// Where `a - b` is a number, `(a - b)·(a - b)` and `(b - a)·(b - a)` are the
/// same value. The binary floating-point types have this: rounding to nearest
/// is symmetric, so `a - b` is `-(b - a)` exactly.
pub open spec fn spec_squares_of_differences_agree<F: Scalar>() -> bool {
    forall|a: F, b: F|
        #[trigger] a.spec_sub(b).spec_eq(a.spec_sub(b)) ==> a.spec_sub(b).spec_mul(a.spec_sub(b))
            == b.spec_sub(a).spec_mul(b.spec_sub(a))
}

/// Arithmetic on `0` stays at `0`: `0 - 0`, `0·0`, `0 + 0`, `sqrt(0)` and
/// `0 / 1` are `0`, and `0` equals itself. The binary floating-point types have
/// this of `+0.0`.
pub open spec fn spec_zero_is_stable<F: Scalar>() -> bool {
    let zero = F::spec_from_u8(0);
    &&& zero.spec_sub(zero) == zero
    &&& zero.spec_mul(zero) == zero
    &&& zero.spec_add(zero) == zero
    &&& zero.spec_sqrt() == zero
    &&& zero.spec_eq(zero)
    &&& zero.spec_div(F::spec_from_u8(1)) == zero
}

/// A value equal to `0` has an absolute value below the least positive value,
/// as `±0.0` has for the binary floating-point types.
pub open spec fn spec_abs_of_zero_is_below_min_positive<F: Scalar>() -> bool {
    forall|x: F|
        #[trigger] x.spec_eq(F::spec_from_u8(0)) ==> x.spec_abs().spec_lt(
            F::spec_min_positive(),
        )
}

} // verus!
