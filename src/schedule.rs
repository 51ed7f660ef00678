//! A light's blink schedule: an initial delay with the light off, then a
//! cycle of durations at the end of each of which the light changes state.
use vstd::prelude::*;

use crate::duration::{millis_ticks, Duration, MAX_MILLIS, TICK_HZ};
use crate::error::Error;
use crate::shared_const::{
    pad, padded, FAST_FLASH_MILLIS, MORSE_DASH_MILLIS, MORSE_DOT_MILLIS, ONE_DAY_SECS,
    SLOW_FLASH_MILLIS,
};
use crate::ticks_vec::{
    empty_ticks, extend_ticks, push_ticks, ticks_from_slice, ticks_of, ticks_slice,
    SCHEDULE_CAPACITY,
};

verus! {

/// What a schedule holds, with durations as tick counts.
pub struct ScheduleView {
    /// Ticks the light stays off before its cycle starts.
    pub initial_delay: u64,
    /// Ticks spent in each state of the cycle, starting with "on".
    pub on_off_durations: Seq<u64>,
}

/// A schedule is valid when its cycle has an even number of durations, so
/// that one pass returns the light to its starting state, and fits the
/// fixed storage.
pub open spec fn valid_schedule(v: ScheduleView) -> bool {
    &&& v.on_off_durations.len() % 2 == 0
    &&& v.on_off_durations.len() <= SCHEDULE_CAPACITY
}

/// The schedule with the given delay and durations, all in ticks.
pub open spec fn schedule_view(initial_delay: u64, on_off_durations: Seq<u64>) -> ScheduleView {
    ScheduleView { initial_delay, on_off_durations }
}

/// The tick counts of a sequence of durations.
pub open spec fn ticks_seq(ds: Seq<Duration>) -> Seq<u64> {
    ds.map_values(|d: Duration| d.ticks)
}

/// Every duration of `s` multiplied by `m`.
pub open spec fn scaled(s: Seq<u64>, m: u64) -> Seq<u64> {
    s.map_values(|x: u64| (x * m) as u64)
}

/// Every duration of `s` multiplied by `m` fits in a tick count.
pub open spec fn scaled_fits(s: Seq<u64>, m: u64) -> bool {
    forall|i: int| 0 <= i < s.len() ==> s[i] * m <= u64::MAX
}

/// The Morse letter S with its gaps: three dots, a dot's pause between each.
pub open spec fn morse_s() -> Seq<u64> {
    let dot = millis_ticks(MORSE_DOT_MILLIS);
    padded(seq![dot, dot, dot], dot)
}

/// The Morse letter O with its gaps: three dashes, a dot's pause between each.
pub open spec fn morse_o() -> Seq<u64> {
    let dash = millis_ticks(MORSE_DASH_MILLIS);
    padded(seq![dash, dash, dash], millis_ticks(MORSE_DOT_MILLIS))
}

/// One SOS cycle before scaling, in ticks: S, a dash's pause, O, a dash's
/// pause, S, and a final pause of `dot_after` milliseconds.
pub open spec fn sos_cycle(dot_after: u64) -> Seq<u64> {
    let dash = millis_ticks(MORSE_DASH_MILLIS);
    morse_s() + seq![dash] + morse_o() + seq![dash] + morse_s() + seq![millis_ticks(dot_after)]
}

/// The SOS schedule can be built: the final pause converts to ticks, and
/// every duration and the initial delay, scaled by `per_dot`, fit.
pub open spec fn sos_fits(dot_delay: u64, dot_after: u64, per_dot: u64) -> bool {
    &&& dot_after <= MAX_MILLIS
    &&& scaled_fits(sos_cycle(dot_after), per_dot)
    &&& dot_delay * per_dot <= u64::MAX
}

/// The SOS schedule: the cycle scaled by `per_dot`, after an initial delay of
/// `dot_delay * per_dot` ticks.
pub open spec fn sos_view(dot_delay: u64, dot_after: u64, per_dot: u64) -> ScheduleView {
    schedule_view((dot_delay * per_dot) as u64, scaled(sos_cycle(dot_after), per_dot))
}

/// SOS scales in proportion to its multiplier: where the schedule with a
/// doubled multiplier can be built, so can the one with the plain multiplier,
/// and each duration and the initial delay of the first is twice that of the
/// second.
pub proof fn lemma_sos_doubling(dot_delay: u64, dot_after: u64, per_dot: u64)
    requires
        per_dot * 2 <= u64::MAX,
        sos_fits(dot_delay, dot_after, (per_dot * 2) as u64),
    ensures
        sos_fits(dot_delay, dot_after, per_dot),
        sos_view(dot_delay, dot_after, (per_dot * 2) as u64).initial_delay == 2 * sos_view(
            dot_delay,
            dot_after,
            per_dot,
        ).initial_delay,
        sos_view(dot_delay, dot_after, (per_dot * 2) as u64).on_off_durations.len() == sos_view(
            dot_delay,
            dot_after,
            per_dot,
        ).on_off_durations.len(),
        forall|i: int|
            0 <= i < sos_view(dot_delay, dot_after, per_dot).on_off_durations.len() ==> sos_view(
                dot_delay,
                dot_after,
                (per_dot * 2) as u64,
            ).on_off_durations[i] == 2 * sos_view(dot_delay, dot_after, per_dot).on_off_durations[i],
{
    let m2 = (per_dot * 2) as u64;
    let cycle = sos_cycle(dot_after);
    assert forall|i: int| 0 <= i < cycle.len() implies cycle[i] * per_dot <= u64::MAX && cycle[i]
        * m2 == 2 * (cycle[i] * per_dot) by {
        let x = cycle[i];
        assert(x * m2 <= u64::MAX);
        assert(x * m2 == 2 * (x * per_dot)) by (nonlinear_arith)
            requires
                m2 == per_dot * 2,
        ;
        assert(x * per_dot <= x * m2) by (nonlinear_arith)
            requires
                m2 == per_dot * 2,
                x >= 0,
                per_dot >= 0,
        ;
    }
    assert(dot_delay * m2 == 2 * (dot_delay * per_dot)) by (nonlinear_arith)
        requires
            m2 == per_dot * 2,
    ;
    assert(dot_delay * per_dot <= dot_delay * m2) by (nonlinear_arith)
        requires
            m2 == per_dot * 2,
            dot_delay >= 0,
            per_dot >= 0,
    ;
}

/// A multiplier that takes a dash past the largest tick count makes SOS
/// unbuildable, whatever the other arguments.
pub proof fn lemma_sos_overflow(dot_delay: u64, dot_after: u64, per_dot: u64)
    requires
        millis_ticks(MORSE_DASH_MILLIS) * per_dot > u64::MAX,
    ensures
        !sos_fits(dot_delay, dot_after, per_dot),
{
    assert(sos_cycle(dot_after)[5] == millis_ticks(MORSE_DASH_MILLIS));
}

/// Two equal on/off durations of `millis` each, after `delay` milliseconds.
pub open spec fn even_blink(delay: u64, millis: u64) -> ScheduleView {
    schedule_view(millis_ticks(delay), seq![millis_ticks(millis), millis_ticks(millis)])
}

/// An initial delay followed by a repeating cycle of on/off durations.
#[derive(Debug)]
pub struct Schedule {
    initial_delay: Duration,
    on_off_durations: heapless::Vec<u64, 20>,
}

impl View for Schedule {
    type V = ScheduleView;

    closed spec fn view(&self) -> ScheduleView {
        ScheduleView {
            initial_delay: self.initial_delay.ticks,
            on_off_durations: ticks_of(self.on_off_durations),
        }
    }
}

impl Schedule {
    #[verifier::type_invariant]
    spec fn well_formed(self) -> bool {
        valid_schedule(self@)
    }

    /// Builds a schedule from durations already in fixed storage; fails when
    /// their count is odd.
    fn new(initial_delay: Duration, on_off_durations: heapless::Vec<u64, 20>) -> (r: Result<
        Schedule,
        Error,
    >)
        requires
            ticks_of(on_off_durations).len() <= SCHEDULE_CAPACITY,
        ensures
            r is Ok <==> ticks_of(on_off_durations).len() % 2 == 0,
            r is Ok ==> r->Ok_0@ == schedule_view(initial_delay.ticks, ticks_of(on_off_durations)),
            r is Err ==> r->Err_0 == Error::ScheduleCycleLengthMustBeEven,
    {
        let len = ticks_slice(&on_off_durations).len();
        if len % 2 != 0 {
            return Err(Error::ScheduleCycleLengthMustBeEven);
        }
        Ok(Schedule { initial_delay, on_off_durations })
    }

    /// Builds a schedule from an initial delay and a cycle of on/off
    /// durations. Fails with `ScheduleCapacityExceeded` when there are more
    /// durations than fit, and otherwise with `ScheduleCycleLengthMustBeEven`
    /// when their count is odd.
    pub fn from_slice(initial_delay: Duration, slice: &[Duration]) -> (r: Result<Schedule, Error>)
        ensures
            r == Err::<Schedule, Error>(Error::ScheduleCapacityExceeded) <==> slice@.len()
                > SCHEDULE_CAPACITY,
            r == Err::<Schedule, Error>(Error::ScheduleCycleLengthMustBeEven) <==> slice@.len()
                <= SCHEDULE_CAPACITY && slice@.len() % 2 == 1,
            r is Ok <==> valid_schedule(schedule_view(initial_delay.ticks, ticks_seq(slice@))),
            r is Ok ==> r->Ok_0@ == schedule_view(initial_delay.ticks, ticks_seq(slice@)),
    {
        let n = slice.len();
        let mut ticks: Vec<u64> = Vec::new();
        let mut i: usize = 0;
        while i < n
            invariant
                n == slice@.len(),
                i <= n,
                ticks@ == ticks_seq(slice@.subrange(0, i as int)),
            decreases n - i,
        {
            ticks.push(slice[i].ticks);
            i = i + 1;
            assert(ticks_seq(slice@.subrange(0, i as int)) =~= ticks_seq(
                slice@.subrange(0, i - 1 as int),
            ).push(slice@[i - 1].ticks));
        }
        assert(slice@.subrange(0, n as int) =~= slice@);
        let on_off_durations = match ticks_from_slice(ticks.as_slice()) {
            Ok(v) => v,
            Err(()) => return Err(Error::ScheduleCapacityExceeded),
        };
        Self::new(initial_delay, on_off_durations)
    }

    /// How long the light stays off before its cycle starts.
    pub fn initial_delay(&self) -> (r: Duration)
        ensures
            r.ticks == self@.initial_delay,
    {
        self.initial_delay
    }

    /// The number of on/off durations in the cycle; always even.
    pub fn len(&self) -> (r: usize)
        ensures
            r == self@.on_off_durations.len(),
            r % 2 == 0,
            r <= SCHEDULE_CAPACITY,
    {
        proof {
            use_type_invariant(self);
        }
        ticks_slice(&self.on_off_durations).len()
    }

    /// The `i`th duration of the cycle.
    pub fn duration_at(&self, i: usize) -> (r: Duration)
        requires
            i < self@.on_off_durations.len(),
        ensures
            r.ticks == self@.on_off_durations[i as int],
    {
        Duration { ticks: ticks_slice(&self.on_off_durations)[i] }
    }

    /// The durations of the cycle, in order.
    pub fn on_off_durations(&self) -> (r: Vec<Duration>)
        ensures
            ticks_seq(r@) == self@.on_off_durations,
    {
        let ticks = ticks_slice(&self.on_off_durations);
        let n = ticks.len();
        let mut r: Vec<Duration> = Vec::new();
        let mut i: usize = 0;
        while i < n
            invariant
                n == ticks@.len(),
                ticks@ == self@.on_off_durations,
                i <= n,
                r@.len() == i,
                forall|j: int| 0 <= j < i ==> r@[j].ticks == ticks@[j],
            decreases n - i,
        {
            r.push(Duration { ticks: ticks[i] });
            i = i + 1;
        }
        assert(ticks_seq(r@) =~= ticks@);
        r
    }

    /// The schedule whose cycle is `on` then `off`, after `initial_delay`.
    fn from_pair(initial_delay: Duration, on: Duration, off: Duration) -> (r: Result<Schedule, Error>)
        ensures
            r is Ok,
            r->Ok_0@ == schedule_view(initial_delay.ticks, seq![on.ticks, off.ticks]),
    {
        let cycle = [on, off];
        let r = Self::from_slice(initial_delay, &cycle);
        assert(ticks_seq(cycle@) =~= seq![on.ticks, off.ticks]);
        r
    }

    /// Fast blinking, starting at once.
    pub fn fast_no_delay() -> (r: Result<Schedule, Error>)
        ensures
            r is Ok,
            r->Ok_0@ == even_blink(0, FAST_FLASH_MILLIS),
    {
        Self::from_pair(
            Duration::from_millis(0),
            Duration::from_millis(FAST_FLASH_MILLIS),
            Duration::from_millis(FAST_FLASH_MILLIS),
        )
    }

    /// Fast blinking, after one fast half period with the light off.
    pub fn fast_with_delay() -> (r: Result<Schedule, Error>)
        ensures
            r is Ok,
            r->Ok_0@ == even_blink(FAST_FLASH_MILLIS, FAST_FLASH_MILLIS),
    {
        Self::from_pair(
            Duration::from_millis(FAST_FLASH_MILLIS),
            Duration::from_millis(FAST_FLASH_MILLIS),
            Duration::from_millis(FAST_FLASH_MILLIS),
        )
    }

    /// Slow blinking, starting at once.
    pub fn slow_no_delay() -> (r: Result<Schedule, Error>)
        ensures
            r is Ok,
            r->Ok_0@ == even_blink(0, SLOW_FLASH_MILLIS),
    {
        Self::from_pair(
            Duration::from_millis(0),
            Duration::from_millis(SLOW_FLASH_MILLIS),
            Duration::from_millis(SLOW_FLASH_MILLIS),
        )
    }

    /// Slow blinking, after one slow half period with the light off.
    pub fn slow_even() -> (r: Result<Schedule, Error>)
        ensures
            r is Ok,
            r->Ok_0@ == even_blink(SLOW_FLASH_MILLIS, SLOW_FLASH_MILLIS),
    {
        Self::from_pair(
            Duration::from_millis(SLOW_FLASH_MILLIS),
            Duration::from_millis(SLOW_FLASH_MILLIS),
            Duration::from_millis(SLOW_FLASH_MILLIS),
        )
    }

    /// The light on: on for a day, off for no time, and again.
    pub fn on() -> (r: Result<Schedule, Error>)
        ensures
            r is Ok,
            r->Ok_0@ == schedule_view(0, seq![(ONE_DAY_SECS * TICK_HZ) as u64, 0]),
    {
        Self::from_pair(
            Duration::from_millis(0),
            Duration::from_secs(ONE_DAY_SECS),
            Duration::from_millis(0),
        )
    }

    /// The light off, for good: an empty cycle.
    pub fn off() -> (r: Result<Schedule, Error>)
        ensures
            r is Ok,
            r->Ok_0@ == schedule_view(0, Seq::empty()),
    {
        Ok(Self::default())
    }

    /// The Morse code SOS, each dot lasting `per_dot` times its one
    /// millisecond, after an initial delay of `dot_delay * per_dot` ticks,
    /// with a final pause of `dot_after` milliseconds, also scaled. Fails with
    /// `ArithmeticOverflow` when a scaled value would not fit in a tick count.
    pub fn sos(dot_delay: u64, dot_after: u64, per_dot: u64) -> (r: Result<Schedule, Error>)
        ensures
            r is Ok <==> sos_fits(dot_delay, dot_after, per_dot),
            r is Ok ==> r->Ok_0@ == sos_view(dot_delay, dot_after, per_dot),
            r is Err ==> r->Err_0 == Error::ArithmeticOverflow,
    {
        let dot = Duration::from_millis(MORSE_DOT_MILLIS).as_ticks();
        let dash = Duration::from_millis(MORSE_DASH_MILLIS).as_ticks();
        let morse_s_ticks = pad(&[dot, dot, dot], dot);
        let morse_o_ticks = pad(&[dash, dash, dash], dot);
        let mut sos = empty_ticks();
        if extend_ticks(&mut sos, morse_s_ticks.as_slice()).is_err() {
            return Err(Error::ScheduleCapacityExceeded);
        }
        if push_ticks(&mut sos, dash).is_err() {
            return Err(Error::ScheduleCapacityExceeded);
        }
        if extend_ticks(&mut sos, morse_o_ticks.as_slice()).is_err() {
            return Err(Error::ScheduleCapacityExceeded);
        }
        if push_ticks(&mut sos, dash).is_err() {
            return Err(Error::ScheduleCapacityExceeded);
        }
        if extend_ticks(&mut sos, morse_s_ticks.as_slice()).is_err() {
            return Err(Error::ScheduleCapacityExceeded);
        }
        if dot_after > MAX_MILLIS {
            return Err(Error::ArithmeticOverflow);
        }
        if push_ticks(&mut sos, Duration::from_millis(dot_after).as_ticks()).is_err() {
            return Err(Error::ScheduleCapacityExceeded);
        }
        let base = ticks_slice(&sos);
        assert(base@ =~= sos_cycle(dot_after));
        // Scale each duration, checking for overflow.
        let n = base.len();
        let mut scaled_ticks = empty_ticks();
        let mut i: usize = 0;
        while i < n
            invariant
                n == base@.len(),
                base@ == sos_cycle(dot_after),
                n <= SCHEDULE_CAPACITY,
                i <= n,
                ticks_of(scaled_ticks) =~= scaled(base@.subrange(0, i as int), per_dot),
                forall|j: int| 0 <= j < i ==> base@[j] * per_dot <= u64::MAX,
            decreases n - i,
        {
            let x = match base[i].checked_mul(per_dot) {
                Some(x) => x,
                None => return Err(Error::ArithmeticOverflow),
            };
            if push_ticks(&mut scaled_ticks, x).is_err() {
                return Err(Error::ScheduleCapacityExceeded);
            }
            i = i + 1;
            assert(scaled(base@.subrange(0, i as int), per_dot) =~= scaled(
                base@.subrange(0, i - 1 as int),
                per_dot,
            ).push(x));
        }
        assert(base@.subrange(0, n as int) =~= base@);
        // Scale the initial delay, checking for overflow.
        let initial_delay = match dot_delay.checked_mul(per_dot) {
            Some(t) => t,
            None => return Err(Error::ArithmeticOverflow),
        };
        Self::new(Duration::from_ticks(initial_delay), scaled_ticks)
    }

    /// SOS with 120 ms dots, a short initial delay and a long pause between
    /// repetitions.
    pub fn sos_slow() -> (r: Result<Schedule, Error>)
        ensures
            r is Ok,
            r->Ok_0@ == sos_view(5, 50, 120),
    {
        Self::sos(5, 50, 120)
    }

    /// SOS with 60 ms dots, a longer initial delay and a short pause between
    /// repetitions.
    pub fn sos_fast() -> (r: Result<Schedule, Error>)
        ensures
            r is Ok,
            r->Ok_0@ == sos_view(100, 10, 60),
    {
        Self::sos(100, 10, 60)
    }
}

impl Default for Schedule {
    /// No initial delay and an empty cycle: the light stays off.
    fn default() -> (r: Schedule)
        ensures
            r@ == schedule_view(0, Seq::empty()),
    {
        Schedule { initial_delay: Duration::from_ticks(0), on_off_durations: empty_ticks() }
    }
}

} // verus!
