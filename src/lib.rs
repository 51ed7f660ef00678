//! Two blinking lights and a button: a schedule player per light, a debounced
//! press reader and a mode sequencer, each a verified state machine that the
//! device's tasks drive.
use vstd::prelude::*;

pub mod button;
pub mod duration;
pub mod error;
pub mod led_state;
pub mod player;
pub mod press_duration;
pub mod schedule;
pub mod shared_const;
pub mod ticks_vec;

pub use button::{classify, ButtonEvent, ButtonPhase, ButtonWait, PressReader};
pub use duration::Duration;
pub use error::Error;
pub use led_state::LedState;
pub use player::{LedCommand, LedEvent, Phase, SchedulePlayer};
pub use press_duration::PressDuration;
pub use schedule::Schedule;

verus! {

} // verus!
