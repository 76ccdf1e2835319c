//! A jump trajectory: all four parameters, two given and two derived.
use vstd::prelude::*;
use crate::arith::{agrees, exact, null, Scalar};
use crate::error::Error;
use crate::nofailure::{
    height_tg, height_tg_defined, height_ti, height_ti_defined, impulse_hg_defined, impulse_tg,
    impulse_tg_defined,
};
use crate::resolver::{
    double_over_defined, gravity_hi, gravity_ht, gravity_ht_defined, gravity_ti,
    half_square_over_defined, height_from_impulse_and_gravity, height_from_time_and_gravity,
    height_from_time_and_impulse, height_ig, gravity_from_height_and_impulse,
    gravity_from_height_and_time, gravity_from_time_and_impulse, impulse_from_height_and_gravity,
    impulse_from_height_and_time, impulse_from_time_and_gravity, impulse_ht, neg_over_defined,
    time_from_height_and_gravity, time_from_height_and_impulse, time_from_impulse_and_gravity,
    time_hi, time_ig,
};

verus! {

/// Represents a trajectory of a jump.
#[derive(Debug, Clone, Copy)]
pub struct Trajectory<N> {
    /// The height of the peak of the jump
    height: N,
    /// The time it takes to reach the peak of the jump
    time: N,
    /// The initial impulse applied to the jump
    impulse: N,
    /// The acceleration due to gravity
    gravity: N,
}

impl<N> View for Trajectory<N> {
    /// (height, time, impulse, gravity)
    type V = (N, N, N, N);

    closed spec fn view(&self) -> (N, N, N, N) {
        (self.height, self.time, self.impulse, self.gravity)
    }
}

impl<N: Copy> Trajectory<N> {
    /// Get the height of the peak
    pub fn height(&self) -> (r: N)
        ensures
            r == self@.0,
    {
        self.height
    }

    /// Get the time it takes to reach the peak of the jump
    pub fn time(&self) -> (r: N)
        ensures
            r == self@.1,
    {
        self.time
    }

    /// Get the initial impulse applied to the jump
    pub fn impulse(&self) -> (r: N)
        ensures
            r == self@.2,
    {
        self.impulse
    }

    /// Get the acceleration due to gravity
    pub fn gravity(&self) -> (r: N)
        ensures
            r == self@.3,
    {
        self.gravity
    }
}

impl<N: Scalar> Trajectory<N> {
    /// Construct a trajectory from the height of the peak and the time to reach that peak
    pub fn from_height_and_time(height: N, time: N) -> (r: Result<Self, Error>)
        requires
            double_over_defined(height, time),
            gravity_ht_defined(height, time),
        ensures
            r matches Err(e) ==> e == Error::Time,
            exact::<N>() ==> (r is Err <==> null(time)),
            r matches Ok(j) ==> j@.0 == height && j@.1 == time && agrees(
                j@.2,
                impulse_ht(height, time),
            ) && agrees(j@.3, gravity_ht(height, time)),
    {
        let impulse = impulse_from_height_and_time(height, time)?;
        let gravity = gravity_from_height_and_time(height, time)?;
        Ok(Trajectory { height, time, impulse, gravity })
    }

    /// Construct a trajectory from the height of the peak and the initial impulse
    pub fn from_height_and_impulse(height: N, impulse: N) -> (r: Result<Self, Error>)
        requires
            double_over_defined(height, impulse),
            half_square_over_defined(impulse, height),
        ensures
            r matches Err(e) ==> e == Error::Impulse || e == Error::Height,
            exact::<N>() ==> (r is Err <==> null(impulse) || null(height)),
            exact::<N>() && null(impulse) ==> r == Err::<Self, Error>(Error::Impulse),
            r matches Ok(j) ==> j@.0 == height && j@.2 == impulse && agrees(
                j@.1,
                time_hi(height, impulse),
            ) && agrees(j@.3, gravity_hi(height, impulse)),
    {
        let time = time_from_height_and_impulse(height, impulse)?;
        let gravity = gravity_from_height_and_impulse(height, impulse)?;
        Ok(Trajectory { height, time, impulse, gravity })
    }

    /// Construct a trajectory from the time to reach the peak and the initial impulse
    pub fn from_time_and_impulse(time: N, impulse: N) -> (r: Result<Self, Error>)
        requires
            height_ti_defined(time, impulse),
            neg_over_defined(impulse, time),
        ensures
            r matches Err(e) ==> e == Error::Time,
            exact::<N>() ==> (r is Err <==> null(time)),
            r matches Ok(j) ==> j@.1 == time && j@.2 == impulse && agrees(
                j@.0,
                height_ti(time, impulse),
            ) && agrees(j@.3, gravity_ti(time, impulse)),
    {
        let height = height_from_time_and_impulse(time, impulse)?;
        let gravity = gravity_from_time_and_impulse(time, impulse)?;
        Ok(Trajectory { height, time, impulse, gravity })
    }

    /// Construct a trajectory from the time to reach the peak and the gravity
    pub fn from_time_and_gravity(time: N, gravity: N) -> (r: Result<Self, Error>)
        requires
            height_tg_defined(time, gravity),
            impulse_tg_defined(time, gravity),
        ensures
            r is Ok,
            r matches Ok(j) ==> j@.1 == time && j@.3 == gravity && agrees(
                j@.0,
                height_tg(time, gravity),
            ) && agrees(j@.2, impulse_tg(time, gravity)),
    {
        let height = height_from_time_and_gravity(time, gravity)?;
        let impulse = impulse_from_time_and_gravity(time, gravity)?;
        Ok(Trajectory { height, time, impulse, gravity })
    }

    /// Construct a trajectory from the initial impulse and the gravity
    pub fn from_impulse_and_gravity(impulse: N, gravity: N) -> (r: Result<Self, Error>)
        requires
            half_square_over_defined(impulse, gravity),
            neg_over_defined(impulse, gravity),
        ensures
            r matches Err(e) ==> e == Error::Gravity,
            exact::<N>() ==> (r is Err <==> null(gravity)),
            r matches Ok(j) ==> j@.2 == impulse && j@.3 == gravity && agrees(
                j@.0,
                height_ig(impulse, gravity),
            ) && agrees(j@.1, time_ig(impulse, gravity)),
    {
        let height = height_from_impulse_and_gravity(impulse, gravity)?;
        let time = time_from_impulse_and_gravity(impulse, gravity)?;
        Ok(Trajectory { height, time, impulse, gravity })
    }
}

impl<N: Scalar + num_traits::Float> Trajectory<N> {
    /// Construct a trajectory from the height of the peak and the gravity
    pub fn from_height_and_gravity(height: N, gravity: N) -> (r: Result<Self, Error>)
        requires
            double_over_defined(height, gravity),
            impulse_hg_defined(height, gravity),
        ensures
            r matches Err(e) ==> e == Error::Gravity,
            exact::<N>() ==> (r is Err <==> null(gravity)),
            r matches Ok(j) ==> j@.0 == height && j@.3 == gravity,
    {
        let time = time_from_height_and_gravity(height, gravity)?;
        let impulse = impulse_from_height_and_gravity(height, gravity)?;
        Ok(Trajectory { height, time, impulse, gravity })
    }
}

} // verus!
