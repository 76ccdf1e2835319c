//! A jump with height control: a full jump while the button is held, a smaller
//! one when it is released early.
use vstd::prelude::*;
use crate::arith::{total, Scalar};
use crate::horizontal::from_speed_range_and_ratio;
use crate::resolver::{gravity_from_height_and_impulse, gravity_from_height_and_time};
use crate::solve::{cast, from_height_and_time, or_zero};

verus! {

/// Configuration for handling jumps with height control
pub struct JumpTrajectory<N> {
    /// Initial vertical impulse
    main_impulse: N,
    /// Gravity to apply when ascending
    main_gravity_ascend: N,
    /// Gravity to apply when descending
    main_gravity_descend: N,
    /// Gravity to apply when ascending in a small jump
    small_gravity_ascend: N,
    /// Gravity to apply when descending in a small jump
    small_gravity_descend: N,
}

impl<N> View for JumpTrajectory<N> {
    /// (impulse, gravity held ascending, held descending, released ascending, released descending)
    type V = (N, N, N, N, N);

    closed spec fn view(&self) -> (N, N, N, N, N) {
        (
            self.main_impulse,
            self.main_gravity_ascend,
            self.main_gravity_descend,
            self.small_gravity_ascend,
            self.small_gravity_descend,
        )
    }
}

/// The gravity that applies while the button is held or not, ascending or not.
pub open spec fn gravity_for<N>(j: (N, N, N, N, N), holding: bool, ascending: bool) -> N {
    if holding {
        if ascending {
            j.1
        } else {
            j.2
        }
    } else if ascending {
        j.3
    } else {
        j.4
    }
}

impl<N: Scalar> JumpTrajectory<N> {
    /// Create a new jump trajectory configuration: a jump to `peak_height` that covers
    /// `range` at `speed`, the share `offset_ratio` of its time before the peak, and a
    /// smaller jump to `smalljump_height` with the same impulse. The values are computed
    /// in the floating-point type `F`. Released early, the jump falls with the lower of
    /// the held descending gravity and the released ascending one.
    pub fn new<F: Scalar + PartialOrd + num_traits::AsPrimitive<N> + num_traits::AsPrimitive<F>>(
        peak_height: N,
        range: N,
        speed: N,
        offset_ratio: F,
        smalljump_height: N,
    ) -> (r: Self) where N: num_traits::AsPrimitive<F>
        requires
            total::<F>(),
        ensures
            r@.4 == r@.2 || r@.4 == r@.3,
    {
        let speed: F = cast(speed);
        let height: F = cast(peak_height);
        let range: F = cast(range);
        let time = from_speed_range_and_ratio::<F, F>(speed, range, offset_ratio);
        let (main_impulse, main_gravity_ascend) = from_height_and_time::<F>(height, time.0);
        let main_gravity_descend = or_zero(gravity_from_height_and_time(height, time.1));
        let small: F = cast(smalljump_height);
        let small_gravity_ascend = or_zero(gravity_from_height_and_impulse(small, main_impulse));
        let descend: N = cast(main_gravity_descend);
        let small_ascend: N = cast(small_gravity_ascend);
        let small_gravity_descend = if main_gravity_descend.lt(&small_gravity_ascend) {
            descend
        } else {
            small_ascend
        };
        JumpTrajectory {
            main_impulse: cast(main_impulse),
            main_gravity_ascend: cast(main_gravity_ascend),
            main_gravity_descend: descend,
            small_gravity_ascend: small_ascend,
            small_gravity_descend,
        }
    }
}

impl<N: Copy> JumpTrajectory<N> {
    /// Get the initial vertical impulse
    pub fn get_impulse(&self) -> (r: N)
        ensures
            r == self@.0,
    {
        self.main_impulse
    }

    /// Get the gravity strength
    pub fn get_gravity(&self, holding: bool, ascending: bool) -> (r: N)
        ensures
            r == gravity_for(self@, holding, ascending),
    {
        if holding {
            if ascending {
                self.main_gravity_ascend
            } else {
                self.main_gravity_descend
            }
        } else if ascending {
            self.small_gravity_ascend
        } else {
            self.small_gravity_descend
        }
    }
}

} // verus!
