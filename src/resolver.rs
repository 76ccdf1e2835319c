//! Resolve one jump parameter from two others. An identity that divides by
//! an input reports that input when it is null.
use vstd::prelude::*;
use crate::arith::{
    agrees, constant, double, double_spec, exact, halve, halve_spec, is_null, lit, nonnull, null,
    pow2, pow2_spec, Scalar,
};
use crate::error::{Error, ErrorTime};
use crate::nofailure;
use crate::nofailure::{
    height_tg, height_tg_defined, height_ti, height_ti_defined, impulse_hg_defined, impulse_tg,
    impulse_tg_defined,
};
use vstd::std_specs::ops::{AddSpec, DivSpec, MulSpec, NegSpec, SubSpec};

verus! {

/// `H = −(V²/2) / G`
pub open spec fn height_ig<N: Scalar>(impulse: N, gravity: N) -> N {
    halve_spec(pow2_spec(impulse)).neg_spec().div_spec(gravity)
}

/// `T = 2·H / V`
pub open spec fn time_hi<N: Scalar>(height: N, impulse: N) -> N {
    double_spec(height).div_spec(impulse)
}

/// `T = −V / G`
pub open spec fn time_ig<N: Scalar>(impulse: N, gravity: N) -> N {
    impulse.neg_spec().div_spec(gravity)
}

/// `V = 2·H / T`
pub open spec fn impulse_ht<N: Scalar>(height: N, time: N) -> N {
    double_spec(height).div_spec(time)
}

/// `G = −2·H / T²`
pub open spec fn gravity_ht<N: Scalar>(height: N, time: N) -> N {
    double_spec(height).neg_spec().div_spec(pow2_spec(time))
}

/// `G = −(V²/2) / H`
pub open spec fn gravity_hi<N: Scalar>(height: N, impulse: N) -> N {
    halve_spec(pow2_spec(impulse)).neg_spec().div_spec(height)
}

/// `G = −V / T`
pub open spec fn gravity_ti<N: Scalar>(time: N, impulse: N) -> N {
    impulse.neg_spec().div_spec(time)
}

/// `T = (D/2) / S`
pub open spec fn time_sd<N: Scalar>(speed: N, range: N) -> N {
    halve_spec(range).div_spec(speed)
}

/// `(R·D/S, (1−R)·D/S)`
pub open spec fn times_sdr<N: Scalar>(speed: N, range: N, ratio: N) -> (N, N) {
    (
        range.div_spec(speed).mul_spec(ratio),
        range.div_spec(speed).mul_spec(lit::<N>(1).sub_spec(ratio)),
    )
}

/// `−(V²/2) / G` stays in range where `G` is not null.
pub open spec fn half_square_over_defined<N: Scalar>(v: N, d: N) -> bool {
    &&& v.mul_req(v)
    &&& forall|p: N, k: N|
        agrees(p, pow2_spec(v)) && agrees(k, lit::<N>(2)) ==> #[trigger] p.div_req(k)
    &&& forall|q: N| agrees(q, halve_spec(pow2_spec(v))) ==> #[trigger] q.neg_req()
    &&& forall|n: N|
        agrees(n, halve_spec(pow2_spec(v)).neg_spec()) && nonnull(d) ==> #[trigger] n.div_req(d)
}

/// `2·H / D` stays in range where `D` is not null.
pub open spec fn double_over_defined<N: Scalar>(h: N, d: N) -> bool {
    &&& h.add_req(h)
    &&& forall|x: N| agrees(x, double_spec(h)) && nonnull(d) ==> #[trigger] x.div_req(d)
}

/// `−V / D` stays in range where `D` is not null.
pub open spec fn neg_over_defined<N: Scalar>(v: N, d: N) -> bool {
    &&& v.neg_req()
    &&& forall|n: N| agrees(n, v.neg_spec()) && nonnull(d) ==> #[trigger] n.div_req(d)
}

/// `−2·H / T²` stays in range where `T` is not null.
pub open spec fn gravity_ht_defined<N: Scalar>(h: N, t: N) -> bool {
    &&& h.add_req(h)
    &&& forall|x: N| agrees(x, double_spec(h)) ==> #[trigger] x.neg_req()
    &&& t.mul_req(t)
    &&& forall|n: N, s: N|
        agrees(n, double_spec(h).neg_spec()) && agrees(s, pow2_spec(t)) && nonnull(t)
            ==> #[trigger] n.div_req(s)
}

/// `(D/2) / S` stays in range where `S` is not null.
pub open spec fn time_sd_defined<N: Scalar>(speed: N, range: N) -> bool {
    &&& forall|k: N| agrees(k, lit::<N>(2)) ==> #[trigger] range.div_req(k)
    &&& forall|x: N| agrees(x, halve_spec(range)) && nonnull(speed) ==> #[trigger] x.div_req(speed)
}

/// `(R·D/S, (1−R)·D/S)` stays in range where `S` is not null.
pub open spec fn times_sdr_defined<N: Scalar>(speed: N, range: N, ratio: N) -> bool {
    &&& nonnull(speed) ==> range.div_req(speed)
    &&& forall|f: N|
        agrees(f, range.div_spec(speed)) && nonnull(speed) ==> #[trigger] f.mul_req(ratio)
    &&& forall|o: N| agrees(o, lit::<N>(1)) ==> #[trigger] o.sub_req(ratio)
    &&& forall|f: N, c: N|
        agrees(f, range.div_spec(speed)) && agrees(c, lit::<N>(1).sub_spec(ratio)) && nonnull(
            speed,
        ) ==> #[trigger] f.mul_req(c)
}

/// Compute the peak height from the time to reach the peak and the vertical impulse.
pub fn height_from_time_and_impulse<N: Scalar>(time: N, impulse: N) -> (r: Result<N, Error>)
    requires
        height_ti_defined(time, impulse),
    ensures
        r is Ok,
        agrees(r->Ok_0, height_ti(time, impulse)),
{
    Ok(nofailure::height_from_time_and_impulse(time, impulse))
}

/// Compute the peak height from the time to reach the peak and the gravity.
pub fn height_from_time_and_gravity<N: Scalar>(time: N, gravity: N) -> (r: Result<N, Error>)
    requires
        height_tg_defined(time, gravity),
    ensures
        r is Ok,
        agrees(r->Ok_0, height_tg(time, gravity)),
{
    Ok(nofailure::height_from_time_and_gravity(time, gravity))
}

/// Compute the peak height from the vertical impulse and the gravity.
pub fn height_from_impulse_and_gravity<N: Scalar>(impulse: N, gravity: N) -> (r: Result<N, Error>)
    requires
        half_square_over_defined(impulse, gravity),
    ensures
        r matches Err(e) ==> e == Error::Gravity,
        exact::<N>() ==> (r is Err <==> null(gravity)),
        r matches Ok(h) ==> agrees(h, height_ig(impulse, gravity)),
{
    if is_null(gravity) {
        Err(Error::Gravity)
    } else {
        let s = pow2(impulse);
        let n = halve(s).neg();
        Ok(n.div(gravity))
    }
}

/// Compute time to reach the peak from the peak height and the vertical impulse.
pub fn time_from_height_and_impulse<N: Scalar>(height: N, impulse: N) -> (r: Result<N, Error>)
    requires
        double_over_defined(height, impulse),
    ensures
        r matches Err(e) ==> e == Error::Impulse,
        exact::<N>() ==> (r is Err <==> null(impulse)),
        r matches Ok(t) ==> agrees(t, time_hi(height, impulse)),
{
    if is_null(impulse) {
        Err(Error::Impulse)
    } else {
        Ok(double(height).div(impulse))
    }
}

/// Compute time to reach the peak from the peak height and the gravity:
/// `T = √|2·H / G|`, the magnitude whatever the signs of the inputs.
pub fn time_from_height_and_gravity<N: Scalar + num_traits::Float>(height: N, gravity: N) -> (r:
    Result<N, Error>)
    requires
        double_over_defined(height, gravity),
    ensures
        r matches Err(e) ==> e == Error::Gravity,
        exact::<N>() ==> (r is Err <==> null(gravity)),
{
    if is_null(gravity) {
        Err(Error::Gravity)
    } else {
        let q = double(height).div(gravity);
        Ok(nofailure::float_sqrt(nofailure::float_abs(q)))
    }
}

/// Compute time to reach the peak from the vertical impulse and the gravity.
pub fn time_from_impulse_and_gravity<N: Scalar>(impulse: N, gravity: N) -> (r: Result<N, Error>)
    requires
        neg_over_defined(impulse, gravity),
    ensures
        r matches Err(e) ==> e == Error::Gravity,
        exact::<N>() ==> (r is Err <==> null(gravity)),
        r matches Ok(t) ==> agrees(t, time_ig(impulse, gravity)),
{
    if is_null(gravity) {
        Err(Error::Gravity)
    } else {
        Ok(impulse.neg().div(gravity))
    }
}

/// Compute the vertical impulse from the peak height and the time to reach the peak.
pub fn impulse_from_height_and_time<N: Scalar>(height: N, time: N) -> (r: Result<N, Error>)
    requires
        double_over_defined(height, time),
    ensures
        r matches Err(e) ==> e == Error::Time,
        exact::<N>() ==> (r is Err <==> null(time)),
        r matches Ok(v) ==> agrees(v, impulse_ht(height, time)),
{
    if is_null(time) {
        Err(Error::Time)
    } else {
        Ok(double(height).div(time))
    }
}

/// Compute the vertical impulse from the peak height and the gravity.
pub fn impulse_from_height_and_gravity<N: Scalar + num_traits::Float>(height: N, gravity: N) -> (r:
    Result<N, Error>)
    requires
        impulse_hg_defined(height, gravity),
    ensures
        r is Ok,
{
    Ok(nofailure::impulse_from_height_and_gravity(height, gravity))
}

/// Compute the vertical impulse from the time to reach the peak and the gravity.
pub fn impulse_from_time_and_gravity<N: Scalar>(time: N, gravity: N) -> (r: Result<N, Error>)
    requires
        impulse_tg_defined(time, gravity),
    ensures
        r is Ok,
        agrees(r->Ok_0, impulse_tg(time, gravity)),
{
    Ok(nofailure::impulse_from_time_and_gravity(time, gravity))
}

/// Compute the gravity from the peak height and the time to reach the peak.
pub fn gravity_from_height_and_time<N: Scalar>(height: N, time: N) -> (r: Result<N, Error>)
    requires
        gravity_ht_defined(height, time),
    ensures
        r matches Err(e) ==> e == Error::Time,
        exact::<N>() ==> (r is Err <==> null(time)),
        r matches Ok(g) ==> agrees(g, gravity_ht(height, time)),
{
    if is_null(time) {
        Err(Error::Time)
    } else {
        let n = double(height).neg();
        Ok(n.div(pow2(time)))
    }
}

/// Compute the gravity from the peak height and the vertical impulse.
pub fn gravity_from_height_and_impulse<N: Scalar>(height: N, impulse: N) -> (r: Result<N, Error>)
    requires
        half_square_over_defined(impulse, height),
    ensures
        r matches Err(e) ==> e == Error::Height,
        exact::<N>() ==> (r is Err <==> null(height)),
        r matches Ok(g) ==> agrees(g, gravity_hi(height, impulse)),
{
    if is_null(height) {
        Err(Error::Height)
    } else {
        let s = pow2(impulse);
        let n = halve(s).neg();
        Ok(n.div(height))
    }
}

/// Compute the gravity from the time to reach the peak and the vertical impulse.
pub fn gravity_from_time_and_impulse<N: Scalar>(time: N, impulse: N) -> (r: Result<N, Error>)
    requires
        neg_over_defined(impulse, time),
    ensures
        r matches Err(e) ==> e == Error::Time,
        exact::<N>() ==> (r is Err <==> null(time)),
        r matches Ok(g) ==> agrees(g, gravity_ti(time, impulse)),
{
    if is_null(time) {
        Err(Error::Time)
    } else {
        Ok(impulse.neg().div(time))
    }
}

/// Compute the time to reach the peak from the horizontal speed and the range.
pub fn time_from_speed_and_range<N: Scalar>(speed: N, range: N) -> (r: Result<N, ErrorTime>)
    requires
        time_sd_defined(speed, range),
    ensures
        r matches Err(e) ==> e == ErrorTime::Speed,
        exact::<N>() ==> (r is Err <==> null(speed)),
        r matches Ok(t) ==> agrees(t, time_sd(speed, range)),
{
    if is_null(speed) {
        Err(ErrorTime::Speed)
    } else {
        Ok(halve(range).div(speed))
    }
}

/// Split the time to cover the range at the horizontal speed by a ratio:
/// the first part before the peak, the rest after it.
pub fn time_from_speed_and_range_with_ratio<N: Scalar>(speed: N, range: N, ratio: N) -> (r: Result<
    (N, N),
    ErrorTime,
>)
    requires
        times_sdr_defined(speed, range, ratio),
    ensures
        r matches Err(e) ==> e == ErrorTime::Speed,
        exact::<N>() ==> (r is Err <==> null(speed)),
        r matches Ok(p) ==> agrees(p.0, times_sdr(speed, range, ratio).0) && agrees(
            p.1,
            times_sdr(speed, range, ratio).1,
        ),
{
    if is_null(speed) {
        Err(ErrorTime::Speed)
    } else {
        let time = range.div(speed);
        let one: N = constant(1i8);
        let rest = one.sub(ratio);
        Ok((time.mul(ratio), time.mul(rest)))
    }
}

} // verus!
