//! The identities that involve no division and so cannot fail.
use vstd::prelude::*;
use crate::arith::{agrees, double, double_spec, halve, halve_spec, lit, pow2, pow2_spec, Scalar};
use vstd::std_specs::ops::{AddSpec, DivSpec, MulSpec, NegSpec};

verus! {

/// `H = V·T / 2`
pub open spec fn height_ti<N: Scalar>(time: N, impulse: N) -> N {
    halve_spec(impulse.mul_spec(time))
}

/// `H = −G·T² / 2`
pub open spec fn height_tg<N: Scalar>(time: N, gravity: N) -> N {
    halve_spec(gravity.mul_spec(pow2_spec(time))).neg_spec()
}

/// `V = −G·T`
pub open spec fn impulse_tg<N: Scalar>(time: N, gravity: N) -> N {
    gravity.neg_spec().mul_spec(time)
}

/// The arithmetic of `height_from_time_and_impulse` stays in range.
pub open spec fn height_ti_defined<N: Scalar>(time: N, impulse: N) -> bool {
    &&& impulse.mul_req(time)
    &&& forall|p: N, k: N|
        agrees(p, impulse.mul_spec(time)) && agrees(k, lit::<N>(2)) ==> #[trigger] p.div_req(k)
}

/// The arithmetic of `height_from_time_and_gravity` stays in range.
pub open spec fn height_tg_defined<N: Scalar>(time: N, gravity: N) -> bool {
    &&& time.mul_req(time)
    &&& forall|s: N| agrees(s, pow2_spec(time)) ==> #[trigger] gravity.mul_req(s)
    &&& forall|p: N, k: N|
        agrees(p, gravity.mul_spec(pow2_spec(time))) && agrees(k, lit::<N>(2))
            ==> #[trigger] p.div_req(k)
    &&& forall|q: N| agrees(q, halve_spec(gravity.mul_spec(pow2_spec(time)))) ==> #[trigger] q.neg_req()
}

/// The arithmetic of `impulse_from_time_and_gravity` stays in range.
pub open spec fn impulse_tg_defined<N: Scalar>(time: N, gravity: N) -> bool {
    &&& gravity.neg_req()
    &&& forall|n: N| agrees(n, gravity.neg_spec()) ==> #[trigger] n.mul_req(time)
}

/// The arithmetic of `impulse_from_height_and_gravity` stays in range.
pub open spec fn impulse_hg_defined<N: Scalar>(height: N, gravity: N) -> bool {
    &&& height.add_req(height)
    &&& forall|d: N| agrees(d, double_spec(height)) ==> #[trigger] d.mul_req(gravity)
}

/// Relies on num_traits::Float::abs: the magnitude of a float.
#[verifier::external_body]
pub(crate) fn float_abs<N: num_traits::Float>(x: N) -> N {
    x.abs()
}

/// Relies on num_traits::Float::sqrt: the square root of a float.
#[verifier::external_body]
pub(crate) fn float_sqrt<N: num_traits::Float>(x: N) -> N {
    x.sqrt()
}

/// Compute the peak height from the time to reach the peak and the vertical impulse.
pub fn height_from_time_and_impulse<N: Scalar>(time: N, impulse: N) -> (r: N)
    requires
        height_ti_defined(time, impulse),
    ensures
        agrees(r, height_ti(time, impulse)),
{
    halve(impulse.mul(time))
}

/// Compute the peak height from the time to reach the peak and the gravity.
pub fn height_from_time_and_gravity<N: Scalar>(time: N, gravity: N) -> (r: N)
    requires
        height_tg_defined(time, gravity),
    ensures
        agrees(r, height_tg(time, gravity)),
{
    let s = pow2(time);
    let h = halve(gravity.mul(s));
    h.neg()
}

/// Compute the vertical impulse from the peak height and the gravity:
/// `V = √|2·H·G|`, the magnitude whatever the signs of the inputs.
pub fn impulse_from_height_and_gravity<N: Scalar + num_traits::Float>(height: N, gravity: N) -> N
    requires
        impulse_hg_defined(height, gravity),
{
    let d = double(height);
    float_sqrt(float_abs(d.mul(gravity)))
}

/// Compute the vertical impulse from the time to reach the peak and the gravity.
pub fn impulse_from_time_and_gravity<N: Scalar>(time: N, gravity: N) -> (r: N)
    requires
        impulse_tg_defined(time, gravity),
    ensures
        agrees(r, impulse_tg(time, gravity)),
{
    gravity.neg().mul(time)
}

} // verus!
