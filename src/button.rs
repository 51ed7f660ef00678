//! The decisions of the debounced button reader.
//!
//! The reader turns the bouncing level of the button's input line into one
//! classification per press. The task that owns the line asks the reader
//! what to wait for, waits, and hands back what ended the wait:
//! 1. the line reading "released";
//! 2. a debounce pause;
//! 3. the line reading "pressed";
//! 4. a debounce pause;
//! 5. the release edge raced against the long-press threshold.
//! After step 5 the reader classifies the press and starts again at step 1,
//! which also absorbs the release of a long press.
use vstd::prelude::*;

use crate::duration::{millis_ticks, Duration};
use crate::press_duration::PressDuration;
use crate::shared_const::{BUTTON_DEBOUNCE_MILLIS, LONG_PRESS_MILLIS};

verus! {

/// Which step of a press the reader is at.
#[derive(Clone, Copy, Debug, PartialEq, Eq, Structural)]
pub enum ButtonPhase {
    /// Waiting for the line to read "released".
    AwaitRelease,
    /// Pausing after the line read "released".
    SettleReleased,
    /// Waiting for the line to read "pressed".
    AwaitPress,
    /// Pausing after the line read "pressed".
    SettlePressed,
    /// Racing the release edge against the long-press threshold.
    Timing,
}

/// What the task should wait for.
#[derive(Clone, Copy, Debug, PartialEq, Eq, Structural)]
pub enum ButtonWait {
    /// The line reading "released" (low).
    Released,
    /// A pause of the given length.
    Pause(Duration),
    /// The line reading "pressed" (high).
    Pressed,
    /// The release (falling) edge, raced against a timer of the given length.
    ReleaseOrTimeout(Duration),
}

/// What ended the wait.
#[derive(Clone, Copy, Debug, PartialEq, Eq, Structural)]
pub enum ButtonEvent {
    /// A level wait or a pause finished.
    Done,
    /// In the race, the release edge came first, after the given time.
    ReleasedAfter(Duration),
    /// In the race, the timer finished first.
    TimedOut,
}

/// The debounce pause, in ticks.
pub open spec fn debounce_ticks() -> u64 {
    millis_ticks(BUTTON_DEBOUNCE_MILLIS)
}

/// The long-press threshold, in ticks.
pub open spec fn long_press_ticks() -> u64 {
    millis_ticks(LONG_PRESS_MILLIS)
}

/// A press held `held` ticks is long from the threshold on, short below it.
pub open spec fn classification(held: u64) -> PressDuration {
    if held >= long_press_ticks() {
        PressDuration::Long
    } else {
        PressDuration::Short
    }
}

/// What the reader waits for at each step.
pub open spec fn wait_of(phase: ButtonPhase) -> ButtonWait {
    match phase {
        ButtonPhase::AwaitRelease => ButtonWait::Released,
        ButtonPhase::SettleReleased => ButtonWait::Pause(Duration { ticks: debounce_ticks() }),
        ButtonPhase::AwaitPress => ButtonWait::Pressed,
        ButtonPhase::SettlePressed => ButtonWait::Pause(Duration { ticks: debounce_ticks() }),
        ButtonPhase::Timing => ButtonWait::ReleaseOrTimeout(Duration { ticks: long_press_ticks() }),
    }
}

/// The reader's next step and the classification it yields, if any, after
/// an event. The first four steps advance when their wait is done; the race
/// yields `Short` for a release below the threshold and `Long` for one at or
/// past it or for the timer, and starts over. An event that does not answer
/// the current wait changes nothing.
pub open spec fn button_step(phase: ButtonPhase, e: ButtonEvent) -> (ButtonPhase, Option<
    PressDuration,
>) {
    match (phase, e) {
        (ButtonPhase::AwaitRelease, ButtonEvent::Done) => (ButtonPhase::SettleReleased, None),
        (ButtonPhase::SettleReleased, ButtonEvent::Done) => (ButtonPhase::AwaitPress, None),
        (ButtonPhase::AwaitPress, ButtonEvent::Done) => (ButtonPhase::SettlePressed, None),
        (ButtonPhase::SettlePressed, ButtonEvent::Done) => (ButtonPhase::Timing, None),
        (ButtonPhase::Timing, ButtonEvent::ReleasedAfter(held)) => (
            ButtonPhase::AwaitRelease,
            Some(classification(held.ticks)),
        ),
        (ButtonPhase::Timing, ButtonEvent::TimedOut) => (
            ButtonPhase::AwaitRelease,
            Some(PressDuration::Long),
        ),
        _ => (phase, None),
    }
}

/// One full press, from waiting for the release of the previous one: four
/// finished waits yield nothing, and the race then yields exactly one
/// classification, long when the release comes at or after the threshold,
/// and leaves the reader ready for the next press.
pub proof fn lemma_one_press(held: Duration)
    ensures
        ({
            let p1 = button_step(ButtonPhase::AwaitRelease, ButtonEvent::Done);
            let p2 = button_step(p1.0, ButtonEvent::Done);
            let p3 = button_step(p2.0, ButtonEvent::Done);
            let p4 = button_step(p3.0, ButtonEvent::Done);
            let p5 = button_step(p4.0, ButtonEvent::ReleasedAfter(held));
            &&& p1.1 is None && p2.1 is None && p3.1 is None && p4.1 is None
            &&& p5.0 == ButtonPhase::AwaitRelease
            &&& p5.1 == Some(
                if held.ticks >= long_press_ticks() {
                    PressDuration::Long
                } else {
                    PressDuration::Short
                },
            )
        }),
{
}

/// Classifies a press held for `held`: `Long` at or past the long-press
/// threshold, `Short` below it.
pub fn classify(held: Duration) -> (r: PressDuration)
    ensures
        r == classification(held.ticks),
        r == PressDuration::Long <==> held.ticks >= long_press_ticks(),
{
    if held.ticks >= Duration::from_millis(LONG_PRESS_MILLIS).ticks {
        PressDuration::Long
    } else {
        PressDuration::Short
    }
}

/// The debounced reader of one button.
#[derive(Clone, Copy, Debug, PartialEq, Eq, Structural)]
pub struct PressReader {
    phase: ButtonPhase,
}

impl View for PressReader {
    type V = ButtonPhase;

    closed spec fn view(&self) -> ButtonPhase {
        self.phase
    }
}

impl PressReader {
    /// A reader that starts by waiting for the button to be released.
    pub fn new() -> (r: PressReader)
        ensures
            r@ == ButtonPhase::AwaitRelease,
    {
        PressReader { phase: ButtonPhase::AwaitRelease }
    }

    /// What to wait for now.
    pub fn wait(&self) -> (r: ButtonWait)
        ensures
            r == wait_of(self@),
    {
        match self.phase {
            ButtonPhase::AwaitRelease => ButtonWait::Released,
            ButtonPhase::SettleReleased => ButtonWait::Pause(
                Duration::from_millis(BUTTON_DEBOUNCE_MILLIS),
            ),
            ButtonPhase::AwaitPress => ButtonWait::Pressed,
            ButtonPhase::SettlePressed => ButtonWait::Pause(
                Duration::from_millis(BUTTON_DEBOUNCE_MILLIS),
            ),
            ButtonPhase::Timing => ButtonWait::ReleaseOrTimeout(
                Duration::from_millis(LONG_PRESS_MILLIS),
            ),
        }
    }

    /// Takes what ended the wait; returns the classification of the press
    /// once it is complete.
    pub fn handle(&mut self, event: ButtonEvent) -> (r: Option<PressDuration>)
        ensures
            (final(self)@, r) == button_step(old(self)@, event),
    {
        match (self.phase, event) {
            (ButtonPhase::AwaitRelease, ButtonEvent::Done) => {
                self.phase = ButtonPhase::SettleReleased;
                None
            },
            (ButtonPhase::SettleReleased, ButtonEvent::Done) => {
                self.phase = ButtonPhase::AwaitPress;
                None
            },
            (ButtonPhase::AwaitPress, ButtonEvent::Done) => {
                self.phase = ButtonPhase::SettlePressed;
                None
            },
            (ButtonPhase::SettlePressed, ButtonEvent::Done) => {
                self.phase = ButtonPhase::Timing;
                None
            },
            (ButtonPhase::Timing, ButtonEvent::ReleasedAfter(held)) => {
                self.phase = ButtonPhase::AwaitRelease;
                Some(classify(held))
            },
            (ButtonPhase::Timing, ButtonEvent::TimedOut) => {
                self.phase = ButtonPhase::AwaitRelease;
                Some(PressDuration::Long)
            },
            _ => None,
        }
    }
}

} // verus!
