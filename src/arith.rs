//! The scalar model: a numeric type with the operators of std, and the small
//! helpers (halve, double, square) that the identities are written with.
use vstd::prelude::*;
use core::ops::{Add, Div, Mul, Neg, Sub};
use vstd::std_specs::cmp::PartialEqSpec;
use vstd::std_specs::convert::FromSpec;
use vstd::std_specs::ops::{AddSpec, DivSpec, MulSpec, NegSpec, SubSpec};

verus! {

/// The operations that the identities need of a scalar.
pub trait Scalar:
    Copy
    + PartialEq
    + From<i8>
    + Add<Output = Self>
    + Sub<Output = Self>
    + Mul<Output = Self>
    + Div<Output = Self>
    + Neg<Output = Self>
{
}

impl<N> Scalar for N
where
    N: Copy
        + PartialEq
        + From<i8>
        + Add<Output = N>
        + Sub<Output = N>
        + Mul<Output = N>
        + Div<Output = N>
        + Neg<Output = N>,
{
}

/// `N` follows the specifications of its operators, of `==` and of `From<i8>`
/// (the signed integer types; not the floating-point ones, whose results vstd
/// leaves open, so that for them the contracts below fix only the errors).
pub open spec fn exact<N: Scalar>() -> bool {
    &&& N::obeys_add_spec()
    &&& N::obeys_sub_spec()
    &&& N::obeys_mul_spec()
    &&& N::obeys_div_spec()
    &&& N::obeys_neg_spec()
    &&& N::obeys_eq_spec()
    &&& N::obeys_from_spec()
}

/// Every operation of `N` is defined on every pair of values, as for floating-point numbers.
pub open spec fn total<N: Scalar>() -> bool {
    &&& forall|x: N, y: N| #[trigger] x.add_req(y)
    &&& forall|x: N, y: N| #[trigger] x.sub_req(y)
    &&& forall|x: N, y: N| #[trigger] x.mul_req(y)
    &&& forall|x: N, y: N| #[trigger] x.div_req(y)
    &&& forall|x: N| #[trigger] x.neg_req()
}

/// The value `k` in `N`.
pub open spec fn lit<N: Scalar>(k: i8) -> N {
    N::from_spec(k)
}

/// `n` is null: equal to zero.
pub open spec fn null<N: Scalar>(n: N) -> bool {
    n.eq_spec(&lit::<N>(0))
}

/// `x` is the value that exact arithmetic gives, wherever `N` is exact.
pub open spec fn agrees<N: Scalar>(x: N, value: N) -> bool {
    exact::<N>() ==> x == value
}

/// `n` is known not to be null, wherever `N` is exact.
pub open spec fn nonnull<N: Scalar>(n: N) -> bool {
    exact::<N>() ==> !null(n)
}

pub open spec fn double_spec<N: Scalar>(n: N) -> N {
    n.add_spec(n)
}

pub open spec fn pow2_spec<N: Scalar>(n: N) -> N {
    n.mul_spec(n)
}

pub open spec fn halve_spec<N: Scalar>(n: N) -> N {
    n.div_spec(lit::<N>(2))
}

/// The constant `k` as a value of `N`.
pub fn constant<N: Scalar>(k: i8) -> (r: N)
    ensures
        agrees(r, lit::<N>(k)),
{
    N::from(k)
}

/// Whether `n` equals zero.
pub fn is_null<N: Scalar>(n: N) -> (r: bool)
    ensures
        exact::<N>() ==> r == null(n),
{
    let zero: N = N::from(0i8);
    n.eq(&zero)
}

/// Compute the half of a value.
pub fn halve<N: Scalar>(n: N) -> (r: N)
    requires
        forall|k: N| agrees(k, lit::<N>(2)) ==> #[trigger] n.div_req(k),
    ensures
        agrees(r, halve_spec(n)),
{
    let two: N = constant(2i8);
    n.div(two)
}

/// Compute the double of a value.
pub fn double<N: Scalar>(n: N) -> (r: N)
    requires
        n.add_req(n),
    ensures
        agrees(r, double_spec(n)),
{
    n.add(n)
}

/// Compute the square of a value.
pub fn pow2<N: Scalar>(n: N) -> (r: N)
    requires
        n.mul_req(n),
    ensures
        agrees(r, pow2_spec(n)),
{
    n.mul(n)
}

} // verus!
