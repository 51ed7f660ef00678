//! Constants shared by the schedules, the button reader and the Morse patterns.
use vstd::prelude::*;

verus! {

/// Pause that lets the button's contacts settle, in milliseconds.
pub const BUTTON_DEBOUNCE_MILLIS: u64 = 10;

/// A press held this long, in milliseconds, is a long press.
pub const LONG_PRESS_MILLIS: u64 = 500;

/// Half period of fast blinking, in milliseconds.
pub const FAST_FLASH_MILLIS: u64 = 250;

/// Half period of slow blinking, in milliseconds.
pub const SLOW_FLASH_MILLIS: u64 = 750;

/// One day, in seconds: long enough to stand for "forever".
pub const ONE_DAY_SECS: u64 = 86_400;

/// Length of a Morse dot before scaling, in milliseconds.
pub const MORSE_DOT_MILLIS: u64 = 1;

/// Length of a Morse dash before scaling, in milliseconds.
pub const MORSE_DASH_MILLIS: u64 = 3;

/// The sequence `input[0], padding, input[1], padding, ..., input[n - 1]`:
/// every item of `input` followed by `padding`, except the last.
pub open spec fn padded(input: Seq<u64>, padding: u64) -> Seq<u64> {
    Seq::new(
        if input.len() == 0 { 0 } else { (2 * input.len() - 1) as nat },
        |j: int| if j % 2 == 0 { input[j / 2] } else { padding },
    )
}

/// Interleaves `padding` between the items of `input`.
pub fn pad(input: &[u64], padding: u64) -> (r: Vec<u64>)
    ensures
        r@ == padded(input@, padding),
{
    let n = input.len();
    let mut r: Vec<u64> = Vec::new();
    let mut i: usize = 0;
    while i < n
        invariant
            n == input@.len(),
            i <= n,
            r@.len() == if i == 0 { 0 } else { 2 * i - 1 },
            forall|j: int| 0 <= j < r@.len() ==> r@[j] == (if j % 2 == 0 { input@[j / 2] } else { padding }),
        decreases n - i,
    {
        if i > 0 {
            r.push(padding);
        }
        r.push(input[i]);
        i = i + 1;
    }
    assert(r@ =~= padded(input@, padding));
    r
}

} // verus!
