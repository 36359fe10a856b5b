use statime_embassy_net::time::{ClockError, CoreDuration, Instant};
use statime_embassy_net::timers::{earlier_deadline, StatimeTimer, Timers};

fn at(ticks: u64) -> Instant {
    Instant { ticks }
}

fn micros(count: u32) -> CoreDuration {
    CoreDuration {
        secs: 0,
        nanos: count * 1_000,
    }
}

#[test]
fn no_timer_runs_at_first() {
    let mut timers = Timers::default();
    assert_eq!(timers.next_deadline(), None);
    assert_eq!(timers.take_due_at(at(u64::MAX)), None);
    assert_eq!(timers.take_due(), None);
}

#[test]
fn due_timers_are_served_in_order() {
    let mut timers = Timers::default();
    assert_eq!(timers.reset_at(at(10), StatimeTimer::FilterUpdate, micros(1)), Ok(()));
    assert_eq!(timers.reset_at(at(10), StatimeTimer::Sync, micros(5)), Ok(()));
    assert_eq!(timers.reset_at(at(10), StatimeTimer::AnnounceReceipt, micros(3)), Ok(()));
    assert_eq!(timers.next_deadline(), Some(at(11)));
    assert_eq!(timers.take_due_at(at(10)), None);
    assert_eq!(timers.take_due_at(at(14)), Some(StatimeTimer::AnnounceReceipt));
    assert_eq!(timers.take_due_at(at(15)), Some(StatimeTimer::Sync));
    assert_eq!(timers.take_due_at(at(15)), Some(StatimeTimer::FilterUpdate));
    assert_eq!(timers.take_due_at(at(15)), None);
    assert_eq!(timers.next_deadline(), None);
}

#[test]
fn resetting_replaces_the_deadline() {
    let mut timers = Timers::default();
    assert_eq!(timers.reset_at(at(0), StatimeTimer::Announce, micros(5)), Ok(()));
    assert_eq!(timers.reset_at(at(3), StatimeTimer::Announce, micros(5)), Ok(()));
    assert_eq!(timers.take_due_at(at(7)), None);
    assert_eq!(timers.take_due_at(at(8)), Some(StatimeTimer::Announce));
}

#[test]
fn unrepresentable_deadline_leaves_the_timers_alone() {
    let mut timers = Timers::default();
    assert_eq!(timers.reset_at(at(1), StatimeTimer::DelayRequest, micros(1)), Ok(()));
    let before = timers;
    assert_eq!(
        timers.reset_at(at(u64::MAX), StatimeTimer::DelayRequest, micros(1)),
        Err(ClockError::Overflow)
    );
    assert_eq!(timers, before);
}

#[test]
fn timers_follow_the_clock() {
    let mut timers = Timers::default();
    let start = embassy_time::Instant::now().as_ticks();
    assert_eq!(timers.reset(StatimeTimer::Sync, CoreDuration { secs: 1000, nanos: 0 }), Ok(()));
    let deadline = timers.next_deadline().unwrap();
    assert!(deadline.ticks >= start + 1_000_000_000);
    assert_eq!(timers.take_due(), None);
    assert_eq!(timers.reset(StatimeTimer::Sync, CoreDuration { secs: 0, nanos: 0 }), Ok(()));
    assert_eq!(timers.take_due(), Some(StatimeTimer::Sync));
}

#[test]
fn timer_places_are_one_to_one() {
    for index in 0..5 {
        assert_eq!(StatimeTimer::from_index(index).index(), index);
    }
    assert_eq!(StatimeTimer::DelayRequest.index(), 2);
}

#[test]
fn absent_deadlines_do_not_count() {
    assert_eq!(earlier_deadline(None, None), None);
    assert_eq!(earlier_deadline(Some(at(3)), None), Some(at(3)));
    assert_eq!(earlier_deadline(None, Some(at(4))), Some(at(4)));
    assert_eq!(earlier_deadline(Some(at(3)), Some(at(4))), Some(at(3)));
}
