use blinky::schedule::Schedule;
use blinky::{Duration, LedCommand, LedEvent, SchedulePlayer};

fn ms(n: u64) -> Duration {
    Duration::from_millis(n)
}

fn cmd(level: bool, wait: Option<u64>) -> LedCommand {
    LedCommand { level, wait: wait.map(Duration::from_ticks) }
}

/// Commands given before and after each of `n` elapsed waits.
fn run(player: &mut SchedulePlayer, n: usize) -> Vec<LedCommand> {
    let mut out = vec![player.command()];
    for _ in 0..n {
        player.handle(LedEvent::Elapsed);
        out.push(player.command());
    }
    out
}

fn four_step() -> Schedule {
    Schedule::from_slice(ms(7), &[ms(1), ms(2), ms(3), ms(4)]).unwrap()
}

#[test]
fn plays_delay_then_cycles_and_wraps() {
    let mut p = SchedulePlayer::new(four_step());
    let got = run(&mut p, 6);
    assert_eq!(
        got,
        vec![
            cmd(false, Some(7_000)),
            cmd(true, Some(1_000)),
            cmd(false, Some(2_000)),
            cmd(true, Some(3_000)),
            cmd(false, Some(4_000)),
            cmd(true, Some(1_000)),
            cmd(false, Some(2_000)),
        ]
    );
}

#[test]
fn default_schedule_keeps_light_off() {
    let mut p = SchedulePlayer::new(Schedule::default());
    assert_eq!(run(&mut p, 3), vec![cmd(false, None); 4]);
}

#[test]
fn always_off_stays_low_until_new_schedule() {
    let mut p = SchedulePlayer::new(Schedule::off().unwrap());
    for c in run(&mut p, 100) {
        assert!(!c.level);
        assert_eq!(c.wait, None);
    }
    p.handle(LedEvent::NewSchedule(Schedule::fast_no_delay().unwrap()));
    assert_eq!(p.command(), cmd(false, Some(0)));
    p.handle(LedEvent::Elapsed);
    assert_eq!(p.command(), cmd(true, Some(250_000)));
}

#[test]
fn same_schedule_twice_matches_once() {
    let mut once = SchedulePlayer::new(Schedule::fast_no_delay().unwrap());
    let mut twice = SchedulePlayer::new(Schedule::fast_no_delay().unwrap());
    run(&mut once, 3);
    run(&mut twice, 3);
    once.handle(LedEvent::NewSchedule(four_step()));
    twice.handle(LedEvent::NewSchedule(four_step()));
    let after_first = twice.command();
    twice.handle(LedEvent::NewSchedule(four_step()));
    assert_eq!(twice.command(), after_first);
    assert_eq!(run(&mut once, 9), run(&mut twice, 9));
}

#[test]
fn new_schedule_mid_cycle_starts_from_its_delay() {
    let mut busy = SchedulePlayer::new(Schedule::sos_fast().unwrap());
    run(&mut busy, 5);
    busy.handle(LedEvent::NewSchedule(four_step()));
    let mut fresh = SchedulePlayer::new(four_step());
    assert_eq!(run(&mut busy, 12), run(&mut fresh, 12));
}

#[test]
fn new_schedule_during_delay_restarts_delay() {
    let mut p = SchedulePlayer::new(Schedule::slow_even().unwrap());
    assert_eq!(p.command(), cmd(false, Some(750_000)));
    p.handle(LedEvent::NewSchedule(Schedule::fast_with_delay().unwrap()));
    assert_eq!(p.command(), cmd(false, Some(250_000)));
}

#[test]
fn on_schedule_lights_for_a_day() {
    let mut p = SchedulePlayer::new(Schedule::on().unwrap());
    assert_eq!(
        run(&mut p, 3),
        vec![
            cmd(false, Some(0)),
            cmd(true, Some(86_400_000_000)),
            cmd(false, Some(0)),
            cmd(true, Some(86_400_000_000)),
        ]
    );
}
