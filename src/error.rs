//! The ways in which building a schedule can fail.
use vstd::prelude::*;

verus! {

/// Why a schedule could not be built.
#[derive(Clone, Copy, Debug, PartialEq, Eq, Structural)]
pub enum Error {
    /// The on/off durations have an odd count, so one cycle would not
    /// bring the light back to its starting state.
    ScheduleCycleLengthMustBeEven,
    /// There are more on/off durations than a schedule can store.
    ScheduleCapacityExceeded,
    /// Scaling a duration would not fit in a tick count.
    ArithmeticOverflow,
}

} // verus!
