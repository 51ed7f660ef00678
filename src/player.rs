//! The decisions of the task that drives one light through its schedule.
//!
//! The task repeatedly asks the player for a command, sets the light to the
//! commanded level, then waits: for the commanded duration raced against the
//! arrival of a new schedule, or, with no duration, for a new schedule alone.
//! Whichever wait finishes first is handed back as the one event; the other
//! is dropped.
use vstd::prelude::*;

use vstd::arithmetic::div_mod::{lemma_mod_self_0, lemma_small_mod};

use crate::duration::Duration;
use crate::schedule::{valid_schedule, Schedule, ScheduleView};

verus! {

/// Where a player stands in its schedule.
#[derive(Clone, Copy, Debug, PartialEq, Eq, Structural)]
pub enum Phase {
    /// The cycle has fewer than two durations: the light stays off until a
    /// new schedule arrives.
    Idle,
    /// The light is off for the initial delay.
    Delay,
    /// The light is in the state of the given position of the cycle: on at
    /// even positions, off at odd ones.
    Cycle(usize),
}

/// What the light should do now.
#[derive(Clone, Copy, Debug, PartialEq, Eq, Structural)]
pub struct LedCommand {
    /// The level to set the light to: `true` for on.
    pub level: bool,
    /// How long to wait for, racing the arrival of a new schedule; `None`
    /// to wait for a new schedule only.
    pub wait: Option<Duration>,
}

/// What ended the last wait.
#[derive(Debug)]
pub enum LedEvent {
    /// The commanded duration elapsed.
    Elapsed,
    /// A new schedule arrived.
    NewSchedule(Schedule),
}

/// An event, with the schedule it carries as its view.
pub enum LedEventView {
    /// The commanded duration elapsed.
    Elapsed,
    /// A schedule with this view arrived.
    NewSchedule(ScheduleView),
}

impl View for LedEvent {
    type V = LedEventView;

    open spec fn view(&self) -> LedEventView {
        match self {
            LedEvent::Elapsed => LedEventView::Elapsed,
            LedEvent::NewSchedule(s) => LedEventView::NewSchedule(s@),
        }
    }
}

/// A player: the schedule it runs and where it stands in it.
pub struct PlayerView {
    /// The schedule being played.
    pub schedule: ScheduleView,
    /// Where the player stands in it.
    pub phase: Phase,
}

/// A player state that can arise: the schedule is valid, the player is idle
/// exactly when the cycle is too short to blink, and a cycle position lies
/// inside the cycle.
pub open spec fn valid_player(v: PlayerView) -> bool {
    &&& valid_schedule(v.schedule)
    &&& (v.phase == Phase::Idle <==> v.schedule.on_off_durations.len() < 2)
    &&& (v.phase matches Phase::Cycle(i) ==> i < v.schedule.on_off_durations.len())
}

/// A player that has just taken schedule `s`: idle when its cycle is too
/// short to blink, else at the start of its initial delay.
pub open spec fn start(s: ScheduleView) -> PlayerView {
    PlayerView {
        schedule: s,
        phase: if s.on_off_durations.len() < 2 { Phase::Idle } else { Phase::Delay },
    }
}

/// The player after its commanded duration elapses: from the initial delay
/// to the first position of the cycle, and from each position to the next,
/// wrapping round at the end. An idle player has no duration to elapse.
pub open spec fn elapse(v: PlayerView) -> PlayerView {
    match v.phase {
        Phase::Idle => v,
        Phase::Delay => PlayerView { phase: Phase::Cycle(0), ..v },
        Phase::Cycle(i) => PlayerView {
            phase: Phase::Cycle(((i + 1) % (v.schedule.on_off_durations.len() as int)) as usize),
            ..v
        },
    }
}

/// The player after an event: a new schedule replaces the old one and starts
/// afresh, whatever the player was doing.
pub open spec fn step(v: PlayerView, e: LedEventView) -> PlayerView {
    match e {
        LedEventView::Elapsed => elapse(v),
        LedEventView::NewSchedule(s) => start(s),
    }
}

/// The command of a player: off and waiting for a new schedule when idle;
/// off for the initial delay; in a cycle, on at even positions and off at odd
/// ones, for the duration at that position.
pub open spec fn command_of(v: PlayerView) -> LedCommand {
    match v.phase {
        Phase::Idle => LedCommand { level: false, wait: None },
        Phase::Delay => LedCommand {
            level: false,
            wait: Some(Duration { ticks: v.schedule.initial_delay }),
        },
        Phase::Cycle(i) => LedCommand {
            level: i % 2 == 0,
            wait: Some(Duration { ticks: v.schedule.on_off_durations[i as int] }),
        },
    }
}

/// The commands a player gives, from its state `v` on, as it meets the
/// events `evs` in turn: one before the first event and one after each.
pub open spec fn trace(v: PlayerView, evs: Seq<LedEventView>) -> Seq<LedCommand>
    decreases evs.len(),
{
    if evs.len() == 0 {
        seq![command_of(v)]
    } else {
        seq![command_of(v)] + trace(step(v, evs[0]), evs.drop_first())
    }
}

/// A new schedule leaves nothing of what the player was doing: the player
/// then gives, for any events that follow, the commands of a player that
/// has just started on that schedule.
pub proof fn lemma_preemption(v: PlayerView, s: ScheduleView, evs: Seq<LedEventView>)
    ensures
        step(v, LedEventView::NewSchedule(s)) == start(s),
        trace(step(v, LedEventView::NewSchedule(s)), evs) == trace(start(s), evs),
{
}

/// Handing a player the same schedule twice in a row leaves it as handing it
/// over once: the same state, and the same commands for any events that
/// follow.
pub proof fn lemma_same_schedule_twice(v: PlayerView, s: ScheduleView, evs: Seq<LedEventView>)
    ensures
        step(step(v, LedEventView::NewSchedule(s)), LedEventView::NewSchedule(s)) == step(
            v,
            LedEventView::NewSchedule(s),
        ),
        trace(step(step(v, LedEventView::NewSchedule(s)), LedEventView::NewSchedule(s)), evs)
            == trace(step(v, LedEventView::NewSchedule(s)), evs),
{
}

/// Under a schedule with an empty cycle the light is off at every command,
/// however much time elapses, until a new schedule arrives.
pub proof fn lemma_always_off(s: ScheduleView, evs: Seq<LedEventView>)
    requires
        s.on_off_durations.len() == 0,
        forall|i: int| 0 <= i < evs.len() ==> evs[i] == LedEventView::Elapsed,
    ensures
        forall|i: int| 0 <= i < trace(start(s), evs).len() ==> !trace(start(s), evs)[i].level,
    decreases evs.len(),
{
    if evs.len() > 0 {
        assert(step(start(s), evs[0]) == start(s));
        let rest = evs.drop_first();
        assert forall|i: int| 0 <= i < rest.len() implies rest[i] == LedEventView::Elapsed by {
            assert(rest[i] == evs[i + 1]);
        }
        lemma_always_off(s, rest);
    }
}

/// Drives one light through a schedule, restarting on each new schedule.
#[derive(Debug)]
pub struct SchedulePlayer {
    schedule: Schedule,
    phase: Phase,
}

impl View for SchedulePlayer {
    type V = PlayerView;

    closed spec fn view(&self) -> PlayerView {
        PlayerView { schedule: self.schedule@, phase: self.phase }
    }
}

impl SchedulePlayer {
    #[verifier::type_invariant]
    spec fn well_formed(self) -> bool {
        valid_player(self@)
    }

    /// Where a player that has just taken `schedule` stands.
    fn start_phase(schedule: &Schedule) -> (r: Phase)
        ensures
            r == start(schedule@).phase,
            valid_schedule(schedule@),
    {
        if schedule.len() < 2 {
            Phase::Idle
        } else {
            Phase::Delay
        }
    }

    /// A player that starts on `schedule`.
    pub fn new(schedule: Schedule) -> (r: SchedulePlayer)
        ensures
            r@ == start(schedule@),
    {
        let phase = Self::start_phase(&schedule);
        SchedulePlayer { schedule, phase }
    }

    /// What the light should do now.
    pub fn command(&self) -> (r: LedCommand)
        ensures
            r == command_of(self@),
    {
        proof {
            use_type_invariant(self);
        }
        match self.phase {
            Phase::Idle => LedCommand { level: false, wait: None },
            Phase::Delay => LedCommand { level: false, wait: Some(self.schedule.initial_delay()) },
            Phase::Cycle(i) => LedCommand {
                level: i % 2 == 0,
                wait: Some(self.schedule.duration_at(i)),
            },
        }
    }

    /// Takes the event that ended the last wait.
    pub fn handle(&mut self, event: LedEvent)
        ensures
            final(self)@ == step(old(self)@, event@),
    {
        proof {
            use_type_invariant(&*self);
        }
        match event {
            LedEvent::Elapsed => {
                let len = self.schedule.len();
                let next = match self.phase {
                    Phase::Idle => Phase::Idle,
                    Phase::Delay => Phase::Cycle(0),
                    Phase::Cycle(i) => if i + 1 < len {
                        proof {
                            lemma_small_mod((i + 1) as nat, len as nat);
                        }
                        Phase::Cycle(i + 1)
                    } else {
                        proof {
                            lemma_mod_self_0(len as int);
                        }
                        Phase::Cycle(0)
                    },
                };
                self.phase = next;
            },
            LedEvent::NewSchedule(schedule) => {
                let phase = Self::start_phase(&schedule);
                *self = SchedulePlayer { schedule, phase };
            },
        }
    }
}

} // verus!
