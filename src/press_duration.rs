//! How long the button was held.
use vstd::prelude::*;

verus! {

/// A button press, classified by how long it was held.
#[derive(Clone, Copy, Debug, Default, Eq, Hash, Ord, PartialEq, PartialOrd, Structural)]
pub enum PressDuration {
    /// Released before the long-press threshold.
    #[default]
    Short,
    /// Held until the long-press threshold.
    Long,
}

} // verus!
