//! The time budget of a jump from its horizontal range and speed.
use vstd::prelude::*;
use crate::arith::{agrees, constant, exact, is_null, lit, nonnull, null, total, Scalar};
use crate::solve::cast;
use vstd::std_specs::ops::{DivSpec, MulSpec};

verus! {

/// `D / (2·S)`
pub open spec fn half_range_time<N: Scalar>(s: N, d: N) -> N {
    d.div_spec(s.mul_spec(lit::<N>(2)))
}

/// Compute the time to reach the peak from the horizontal speed and the range:
/// `D / (2·S)`, or zero where the speed is null.
pub fn from_speed_and_range<N: Scalar>(s: N, d: N) -> (r: N)
    requires
        forall|k: N| agrees(k, lit::<N>(2)) ==> #[trigger] s.mul_req(k),
        forall|p: N| agrees(p, s.mul_spec(lit::<N>(2))) && nonnull(s) ==> #[trigger] d.div_req(p),
    ensures
        exact::<N>() ==> r == if null(s) {
            lit::<N>(0)
        } else {
            half_range_time(s, d)
        },
{
    if is_null(s) {
        constant(0i8)
    } else {
        let two: N = constant(2i8);
        d.div(s.mul(two))
    }
}

/// Split the time to cover the range at the horizontal speed by a ratio, computed
/// in the floating-point type `F`: `(R·D/S, (1−R)·D/S)`, or zeros where the speed is null.
pub fn from_speed_range_and_ratio<
    N: Scalar + num_traits::AsPrimitive<F>,
    F: Scalar + num_traits::AsPrimitive<N>,
>(s: N, d: N, r: F) -> (t: (N, N))
    requires
        total::<F>(),
    ensures
        exact::<N>() && null(s) ==> t == (lit::<N>(0), lit::<N>(0)),
{
    if is_null(s) {
        (constant(0i8), constant(0i8))
    } else {
        let df: F = cast(d);
        let sf: F = cast(s);
        let f = df.div(sf);
        let one: F = constant(1i8);
        let t1 = f.mul(r);
        let t2 = f.mul(one.sub(r));
        (cast(t1), cast(t2))
    }
}

} // verus!
