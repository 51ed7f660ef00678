use blinky::schedule::Schedule;
use blinky::{LedState, PressDuration};

fn view(s: &Schedule) -> (u64, Vec<u64>) {
    (s.initial_delay().as_ticks(), s.on_off_durations().iter().map(|d| d.as_ticks()).collect())
}

fn views(state: LedState) -> ((u64, Vec<u64>), (u64, Vec<u64>)) {
    let (a, b) = state.schedules().unwrap();
    (view(&a), view(&b))
}

const ALL: [LedState; 6] = [
    LedState::FastAlternate,
    LedState::FastTogether,
    LedState::SlowAlternate,
    LedState::Sos,
    LedState::AlwaysOn,
    LedState::AlwaysOff,
];

#[test]
fn starts_fast_alternate() {
    assert_eq!(LedState::default(), LedState::FastAlternate);
    assert_eq!(views(LedState::default()), ((250_000, vec![250_000, 250_000]), (0, vec![250_000, 250_000])));
}

#[test]
fn end_to_end_scenario() {
    let mut state = LedState::default();
    state = state.next(PressDuration::Short);
    assert_eq!(state, LedState::FastTogether);
    let fast = view(&Schedule::fast_with_delay().unwrap());
    assert_eq!(views(state), (fast.clone(), fast));
    state = state.next(PressDuration::Short);
    assert_eq!(state, LedState::SlowAlternate);
    state = state.next(PressDuration::Long);
    assert_eq!(state, LedState::Sos);
    assert_eq!(
        views(state),
        (view(&Schedule::sos_slow().unwrap()), view(&Schedule::sos_fast().unwrap()))
    );
    state = state.next(PressDuration::Long);
    assert_eq!(state, LedState::Sos);
}

#[test]
fn long_press_always_leads_to_sos() {
    for s in ALL {
        assert_eq!(s.next(PressDuration::Long), LedState::Sos);
    }
}

#[test]
fn short_press_cycle() {
    let mut s = LedState::FastAlternate;
    let mut seen = Vec::new();
    for _ in 0..5 {
        s = s.next(PressDuration::Short);
        seen.push(s);
    }
    assert_eq!(
        seen,
        vec![
            LedState::FastTogether,
            LedState::SlowAlternate,
            LedState::AlwaysOn,
            LedState::AlwaysOff,
            LedState::FastAlternate
        ]
    );
    assert_eq!(LedState::Sos.next(PressDuration::Short), LedState::FastAlternate);
}

#[test]
fn schedules_per_mode() {
    assert_eq!(views(LedState::SlowAlternate), ((750_000, vec![750_000, 750_000]), (0, vec![750_000, 750_000])));
    assert_eq!(views(LedState::AlwaysOn), ((0, vec![86_400_000_000, 0]), (0, vec![86_400_000_000, 0])));
    assert_eq!(views(LedState::AlwaysOff), ((0, vec![]), (0, vec![])));
    for s in ALL {
        let (a, b) = s.schedules().unwrap();
        assert_eq!(a.len() % 2, 0);
        assert_eq!(b.len() % 2, 0);
    }
}
