//! The failures of the resolver.
use vstd::prelude::*;

verus! {

/// The input whose null value leaves an identity undefined.
#[derive(Debug, Clone, Copy, PartialEq, Eq, Structural)]
pub enum Error {
    /// The height of the peak is null.
    Height,
    /// The time to reach the peak is null.
    Time,
    /// The initial vertical impulse is null.
    Impulse,
    /// The gravity is null.
    Gravity,
}

/// The input whose null value leaves a horizontal time undefined.
#[derive(Debug, Clone, Copy, PartialEq, Eq, Structural)]
pub enum ErrorTime {
    /// The time to cover the distance is null.
    Time,
    /// The distance is null.
    Range,
    /// The horizontal speed is null.
    Speed,
}

/// Every horizontal failure becomes `Error::Time`: which input was null is lost.
impl From<ErrorTime> for Error {
    fn from(error: ErrorTime) -> (r: Error)
        ensures
            r == Error::Time,
    {
        Error::Time
    }
}

impl vstd::std_specs::convert::FromSpecImpl<ErrorTime> for Error {
    open spec fn obeys_from_spec() -> bool {
        true
    }

    open spec fn from_spec(error: ErrorTime) -> Error {
        Error::Time
    }
}

} // verus!
