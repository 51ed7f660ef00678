use blinky::schedule::Schedule;
use blinky::{Duration, Error};

fn ticks(s: &Schedule) -> Vec<u64> {
    s.on_off_durations().iter().map(|d| d.as_ticks()).collect()
}

fn ms(n: u64) -> Duration {
    Duration::from_millis(n)
}

#[test]
fn millis_and_secs_convert_to_ticks() {
    assert_eq!(Duration::from_millis(250).as_ticks(), 250_000);
    assert_eq!(Duration::from_millis(0).as_ticks(), 0);
    assert_eq!(Duration::from_secs(2).as_ticks(), 2_000_000);
    assert_eq!(Duration::from_ticks(7).as_ticks(), 7);
}

#[test]
fn from_slice_accepts_even_cycle() {
    let s = Schedule::from_slice(ms(5), &[ms(1), ms(2), ms(3), ms(4)]).unwrap();
    assert_eq!(s.initial_delay(), ms(5));
    assert_eq!(s.len(), 4);
    assert_eq!(ticks(&s), vec![1_000, 2_000, 3_000, 4_000]);
    assert_eq!(s.duration_at(2), ms(3));
}

#[test]
fn from_slice_accepts_empty_cycle() {
    let s = Schedule::from_slice(ms(0), &[]).unwrap();
    assert_eq!(s.len(), 0);
}

#[test]
fn from_slice_rejects_odd_cycle() {
    for n in [1usize, 3, 19] {
        let v = vec![ms(1); n];
        assert_eq!(Schedule::from_slice(ms(0), &v).unwrap_err(), Error::ScheduleCycleLengthMustBeEven);
    }
}

#[test]
fn from_slice_takes_full_capacity() {
    let v = vec![ms(1); 20];
    assert_eq!(Schedule::from_slice(ms(0), &v).unwrap().len(), 20);
}

#[test]
fn from_slice_rejects_over_capacity() {
    for n in [21usize, 22, 40] {
        let v = vec![ms(1); n];
        assert_eq!(Schedule::from_slice(ms(0), &v).unwrap_err(), Error::ScheduleCapacityExceeded);
    }
}

#[test]
fn blink_factories() {
    let s = Schedule::fast_no_delay().unwrap();
    assert_eq!((s.initial_delay().as_ticks(), ticks(&s)), (0, vec![250_000, 250_000]));
    let s = Schedule::fast_with_delay().unwrap();
    assert_eq!((s.initial_delay().as_ticks(), ticks(&s)), (250_000, vec![250_000, 250_000]));
    let s = Schedule::slow_no_delay().unwrap();
    assert_eq!((s.initial_delay().as_ticks(), ticks(&s)), (0, vec![750_000, 750_000]));
    let s = Schedule::slow_even().unwrap();
    assert_eq!((s.initial_delay().as_ticks(), ticks(&s)), (750_000, vec![750_000, 750_000]));
}

#[test]
fn on_and_off_factories() {
    let s = Schedule::on().unwrap();
    assert_eq!((s.initial_delay().as_ticks(), ticks(&s)), (0, vec![86_400_000_000, 0]));
    let s = Schedule::off().unwrap();
    assert_eq!((s.initial_delay().as_ticks(), ticks(&s)), (0, vec![]));
    let d = Schedule::default();
    assert_eq!((d.initial_delay().as_ticks(), ticks(&d)), (0, vec![]));
}

fn sos_cycle_millis(after: u64) -> Vec<u64> {
    vec![1, 1, 1, 1, 1, 3, 3, 1, 3, 1, 3, 3, 1, 1, 1, 1, 1, after]
}

#[test]
fn sos_slow_values() {
    let s = Schedule::sos_slow().unwrap();
    assert_eq!(s.initial_delay().as_ticks(), 600);
    let expected: Vec<u64> = sos_cycle_millis(50).iter().map(|m| m * 1_000 * 120).collect();
    assert_eq!(ticks(&s), expected);
    assert_eq!(s.len() % 2, 0);
}

#[test]
fn sos_fast_values() {
    let s = Schedule::sos_fast().unwrap();
    assert_eq!(s.initial_delay().as_ticks(), 6_000);
    let expected: Vec<u64> = sos_cycle_millis(10).iter().map(|m| m * 1_000 * 60).collect();
    assert_eq!(ticks(&s), expected);
}

#[test]
fn sos_is_deterministic() {
    let a = Schedule::sos_slow().unwrap();
    let b = Schedule::sos_slow().unwrap();
    assert_eq!(a.initial_delay(), b.initial_delay());
    assert_eq!(a.on_off_durations(), b.on_off_durations());
    assert_eq!(ticks(&Schedule::fast_no_delay().unwrap()), ticks(&Schedule::fast_no_delay().unwrap()));
}

#[test]
fn sos_doubling_multiplier_doubles_everything() {
    let a = Schedule::sos(5, 50, 120).unwrap();
    let b = Schedule::sos(5, 50, 240).unwrap();
    assert_eq!(b.initial_delay().as_ticks(), 2 * a.initial_delay().as_ticks());
    let doubled: Vec<u64> = ticks(&a).iter().map(|t| 2 * t).collect();
    assert_eq!(ticks(&b), doubled);
}

#[test]
fn sos_multiplier_overflow() {
    let too_big = u64::MAX / 3_000 + 1;
    assert_eq!(Schedule::sos(0, 1, too_big).unwrap_err(), Error::ArithmeticOverflow);
    assert!(Schedule::sos(0, 1, u64::MAX / 3_000).is_ok());
}

#[test]
fn sos_initial_delay_overflow() {
    assert_eq!(Schedule::sos(u64::MAX, 1, 2).unwrap_err(), Error::ArithmeticOverflow);
}

#[test]
fn sos_final_pause_overflow() {
    assert_eq!(Schedule::sos(1, u64::MAX, 1).unwrap_err(), Error::ArithmeticOverflow);
    assert_eq!(Schedule::sos(1, u64::MAX / 1_000 / 2, 3).unwrap_err(), Error::ArithmeticOverflow);
}
