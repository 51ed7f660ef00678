//! The mode sequencer: which schedules the two lights run in each mode, and
//! which mode a press leads to.
use vstd::prelude::*;

use crate::duration::TICK_HZ;
use crate::error::Error;
use crate::press_duration::PressDuration;
use crate::schedule::{even_blink, schedule_view, sos_view, Schedule, ScheduleView};
use crate::shared_const::{FAST_FLASH_MILLIS, ONE_DAY_SECS, SLOW_FLASH_MILLIS};

verus! {

/// The operating modes of the two lights.
///
/// A short press steps through FastAlternate, FastTogether, SlowAlternate,
/// AlwaysOn and AlwaysOff, and back to FastAlternate. A long press leads to
/// Sos from every mode, Sos included; a short press leaves Sos for
/// FastAlternate.
#[derive(Clone, Copy, Debug, PartialEq, Eq, Structural)]
pub enum LedState {
    /// Both lights blink fast, half a period apart.
    FastAlternate,
    /// Both lights blink fast, in step.
    FastTogether,
    /// Both lights blink slowly, half a period apart.
    SlowAlternate,
    /// Both lights send the Morse code SOS, at different speeds.
    Sos,
    /// Both lights stay on.
    AlwaysOn,
    /// Both lights stay off.
    AlwaysOff,
}

/// The mode that a press leads to.
pub open spec fn next_state(s: LedState, press: PressDuration) -> LedState {
    match press {
        PressDuration::Long => LedState::Sos,
        PressDuration::Short => match s {
            LedState::FastAlternate => LedState::FastTogether,
            LedState::FastTogether => LedState::SlowAlternate,
            LedState::SlowAlternate => LedState::AlwaysOn,
            LedState::AlwaysOn => LedState::AlwaysOff,
            LedState::AlwaysOff => LedState::FastAlternate,
            LedState::Sos => LedState::FastAlternate,
        },
    }
}

/// The schedule that keeps a light on.
pub open spec fn on_view() -> ScheduleView {
    schedule_view(0, seq![(ONE_DAY_SECS * TICK_HZ) as u64, 0])
}

/// The schedule that keeps a light off.
pub open spec fn off_view() -> ScheduleView {
    schedule_view(0, Seq::empty())
}

/// The schedules of the first and the second light in each mode.
pub open spec fn schedules_of(s: LedState) -> (ScheduleView, ScheduleView) {
    match s {
        LedState::FastAlternate => (
            even_blink(FAST_FLASH_MILLIS, FAST_FLASH_MILLIS),
            even_blink(0, FAST_FLASH_MILLIS),
        ),
        LedState::FastTogether => (
            even_blink(FAST_FLASH_MILLIS, FAST_FLASH_MILLIS),
            even_blink(FAST_FLASH_MILLIS, FAST_FLASH_MILLIS),
        ),
        LedState::SlowAlternate => (
            even_blink(SLOW_FLASH_MILLIS, SLOW_FLASH_MILLIS),
            even_blink(0, SLOW_FLASH_MILLIS),
        ),
        LedState::Sos => (sos_view(5, 50, 120), sos_view(100, 10, 60)),
        LedState::AlwaysOn => (on_view(), on_view()),
        LedState::AlwaysOff => (off_view(), off_view()),
    }
}

/// A long press leads to Sos from every mode, Sos included.
pub proof fn lemma_long_press_to_sos(s: LedState)
    ensures
        next_state(s, PressDuration::Long) == LedState::Sos,
{
}

impl LedState {
    /// The mode that `press` leads to from this one.
    pub fn next(self, press: PressDuration) -> (r: LedState)
        ensures
            r == next_state(self, press),
    {
        match press {
            PressDuration::Long => LedState::Sos,
            PressDuration::Short => match self {
                LedState::FastAlternate => LedState::FastTogether,
                LedState::FastTogether => LedState::SlowAlternate,
                LedState::SlowAlternate => LedState::AlwaysOn,
                LedState::AlwaysOn => LedState::AlwaysOff,
                LedState::AlwaysOff => LedState::FastAlternate,
                LedState::Sos => LedState::FastAlternate,
            },
        }
    }

    /// The schedules that the first and the second light run in this mode.
    pub fn schedules(self) -> (r: Result<(Schedule, Schedule), Error>)
        ensures
            r is Ok,
            r->Ok_0.0@ == schedules_of(self).0,
            r->Ok_0.1@ == schedules_of(self).1,
    {
        let pair = match self {
            LedState::FastAlternate => (Schedule::fast_with_delay()?, Schedule::fast_no_delay()?),
            LedState::FastTogether => (Schedule::fast_with_delay()?, Schedule::fast_with_delay()?),
            LedState::SlowAlternate => (Schedule::slow_even()?, Schedule::slow_no_delay()?),
            LedState::Sos => (Schedule::sos_slow()?, Schedule::sos_fast()?),
            LedState::AlwaysOn => (Schedule::on()?, Schedule::on()?),
            LedState::AlwaysOff => (Schedule::off()?, Schedule::off()?),
        };
        Ok(pair)
    }
}

impl Default for LedState {
    /// The first mode of the sequence.
    fn default() -> (r: LedState)
        ensures
            r == LedState::FastAlternate,
    {
        LedState::FastAlternate
    }
}

} // verus!
