//! The two unknown parameters of a jump at once, as a pair. Where an identity is
//! undefined (a null divisor) its value is zero.
use vstd::prelude::*;
use crate::arith::{agrees, constant, double, exact, is_null, lit, null, Scalar};
use crate::nofailure::{
    float_abs, float_sqrt, height_tg, height_tg_defined, height_ti, height_ti_defined,
    impulse_tg, impulse_tg_defined,
};
use crate::resolver::{
    double_over_defined, gravity_hi, gravity_ht, gravity_ht_defined, gravity_ti,
    half_square_over_defined, height_ig, impulse_ht, neg_over_defined, time_hi, time_ig,
};
use crate::resolver;
use crate::nofailure;

verus! {

/// The value of a resolved identity, or zero where it is undefined.
pub(crate) fn or_zero<N: Scalar, E>(r: Result<N, E>) -> (v: N)
    ensures
        r matches Ok(x) ==> v == x,
        r is Err ==> agrees(v, lit::<N>(0)),
{
    match r {
        Ok(x) => x,
        Err(_) => constant(0i8),
    }
}

/// Relies on num_traits::AsPrimitive::as_: the `as` conversion between primitive numbers.
#[verifier::external_body]
pub(crate) fn cast<A: num_traits::AsPrimitive<B>, B: 'static + Copy>(a: A) -> B {
    a.as_()
}

/// Compute the vertical impulse and the gravity from the peak height and the time to reach the peak
pub fn from_height_and_time<N: Scalar>(h: N, t: N) -> (r: (N, N))
    requires
        double_over_defined(h, t),
        gravity_ht_defined(h, t),
    ensures
        exact::<N>() && null(t) ==> r == (lit::<N>(0), lit::<N>(0)),
        exact::<N>() && !null(t) ==> r == (impulse_ht(h, t), gravity_ht(h, t)),
{
    let v = or_zero(resolver::impulse_from_height_and_time(h, t));
    let g = or_zero(resolver::gravity_from_height_and_time(h, t));
    (v, g)
}

/// Compute the time to reach the peak and the gravity from the peak height and the vertical impulse
pub fn from_height_and_impulse<N: Scalar>(h: N, v: N) -> (r: (N, N))
    requires
        double_over_defined(h, v),
        half_square_over_defined(v, h),
    ensures
        exact::<N>() ==> r.0 == if null(v) {
            lit::<N>(0)
        } else {
            time_hi(h, v)
        },
        exact::<N>() ==> r.1 == if null(h) {
            lit::<N>(0)
        } else {
            gravity_hi(h, v)
        },
{
    let t = or_zero(resolver::time_from_height_and_impulse(h, v));
    let g = or_zero(resolver::gravity_from_height_and_impulse(h, v));
    (t, g)
}

/// Compute the peak height and the gravity from the time to reach the peak and the vertical impulse
pub fn from_time_and_impulse<N: Scalar>(t: N, v: N) -> (r: (N, N))
    requires
        height_ti_defined(t, v),
        neg_over_defined(v, t),
    ensures
        agrees(r.0, height_ti(t, v)),
        exact::<N>() ==> r.1 == if null(t) {
            lit::<N>(0)
        } else {
            gravity_ti(t, v)
        },
{
    let h = nofailure::height_from_time_and_impulse(t, v);
    let g = or_zero(resolver::gravity_from_time_and_impulse(t, v));
    (h, g)
}

/// Compute the peak height and the vertical impulse from the time to reach the peak and the gravity
pub fn from_time_and_gravity<N: Scalar>(t: N, g: N) -> (r: (N, N))
    requires
        height_tg_defined(t, g),
        impulse_tg_defined(t, g),
    ensures
        agrees(r.0, height_tg(t, g)),
        agrees(r.1, impulse_tg(t, g)),
{
    let h = nofailure::height_from_time_and_gravity(t, g);
    let v = nofailure::impulse_from_time_and_gravity(t, g);
    (h, v)
}

/// Compute the peak height and the time to reach the peak from the vertical impulse and the gravity
pub fn from_impulse_and_gravity<N: Scalar>(v: N, g: N) -> (r: (N, N))
    requires
        half_square_over_defined(v, g),
        neg_over_defined(v, g),
    ensures
        exact::<N>() && null(g) ==> r == (lit::<N>(0), lit::<N>(0)),
        exact::<N>() && !null(g) ==> r == (height_ig(v, g), time_ig(v, g)),
{
    let h = or_zero(resolver::height_from_impulse_and_gravity(v, g));
    let t = or_zero(resolver::time_from_impulse_and_gravity(v, g));
    (h, t)
}

/// Compute the time to reach the peak from the peak height and the gravity: `√|2·H / G|`,
/// where the root is taken in the floating-point type `F`; zero where `G` is null.
pub fn time_from_height_and_gravity<
    N: Scalar + num_traits::AsPrimitive<F>,
    F: Scalar + num_traits::Float + num_traits::AsPrimitive<N>,
>(h: N, g: N) -> (r: N)
    requires
        double_over_defined(h, g),
    ensures
        exact::<N>() && null(g) ==> r == lit::<N>(0),
{
    if is_null(g) {
        constant(0i8)
    } else {
        let q = double(h).div(g);
        let f: F = cast(q);
        cast(float_sqrt(float_abs(f)))
    }
}

/// Compute the vertical impulse from the peak height and the gravity: `√|2·H·G|`,
/// where the root is taken in the floating-point type `F`.
pub fn impulse_from_height_and_gravity<
    N: Scalar + num_traits::AsPrimitive<F>,
    F: Scalar + num_traits::Float + num_traits::AsPrimitive<N>,
>(h: N, g: N) -> N
    requires
        crate::nofailure::impulse_hg_defined(h, g),
{
    let p = double(h).mul(g);
    let f: F = cast(p);
    cast(float_sqrt(float_abs(f)))
}

/// Compute the time to reach the peak and the vertical impulse from the peak height and the gravity
pub fn from_height_and_gravity<
    N: Scalar + num_traits::AsPrimitive<F>,
    F: Scalar + num_traits::Float + num_traits::AsPrimitive<N>,
>(h: N, g: N) -> (r: (N, N))
    requires
        double_over_defined(h, g),
        crate::nofailure::impulse_hg_defined(h, g),
    ensures
        exact::<N>() && null(g) ==> r.0 == lit::<N>(0),
{
    let t = time_from_height_and_gravity::<N, F>(h, g);
    let v = impulse_from_height_and_gravity::<N, F>(h, g);
    (t, v)
}

} // verus!
