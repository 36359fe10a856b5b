use statime_embassy_net::time::{
    deadline_from, deadline_from_now, time_from, time_from_parts, ClockError, CoreDuration,
    EmbassyDuration, Instant, Time, Timestamp, NANOS_PER_SEC, NANOS_PER_TICK, TICK_HZ,
};

#[test]
fn preserves_quarter_nanoseconds() {
    for (quarter_nanos, subnanos) in [(40, 0), (41, 1 << 30), (42, 1 << 31), (43, 3 << 30)] {
        assert_eq!(
            time_from(Timestamp {
                seconds: 2,
                quarter_nanos,
            }),
            Time::from_nanos_subnanos(2_000_000_010, subnanos),
        );
    }
}

#[test]
fn fixed_point_time_is_that_of_statime() {
    let time = Time::from_nanos_subnanos(3, 1 << 31);
    assert_eq!(time.bits, (3 << 32) + (1 << 31));
    assert_eq!(
        time.bits,
        statime::time::Time::from_nanos_subnanos(3, 1 << 31)
            .nanos()
            .to_bits()
    );
    let largest = time_from_parts(u32::MAX, u32::MAX);
    assert_eq!(
        largest.bits,
        (4_294_967_295u128 * 4_000_000_000 + 4_294_967_295) << 30
    );
}

#[test]
fn later_timestamps_give_later_times() {
    let early = Timestamp {
        seconds: 7,
        quarter_nanos: 3_999_999_999,
    };
    let late = Timestamp {
        seconds: 8,
        quarter_nanos: 0,
    };
    assert!(time_from(early).bits < time_from(late).bits);
    assert_eq!(time_from(late).bits - time_from(early).bits, 1 << 30);
}

#[test]
fn tick_rate_is_that_of_the_clock() {
    assert_eq!(TICK_HZ, embassy_time::TICK_HZ);
    assert_eq!(NANOS_PER_TICK * TICK_HZ, NANOS_PER_SEC);
}

#[test]
fn durations_round_up_to_ticks() {
    for (nanos, ticks) in [(0, 0), (1, 1), (999, 1), (1_000, 1), (1_001, 2), (999_999_999, 1_000_000)] {
        assert_eq!(
            CoreDuration { secs: 0, nanos }.to_ticks(),
            EmbassyDuration { ticks }
        );
    }
    assert_eq!(
        CoreDuration { secs: 5, nanos: 1 }.to_ticks(),
        EmbassyDuration { ticks: 5_000_001 }
    );
    assert_eq!(
        CoreDuration { secs: u64::MAX, nanos: 7 }.as_nanos(),
        u64::MAX as u128 * 1_000_000_000 + 7
    );
}

#[test]
fn deadlines_past_the_last_instant_are_refused() {
    let now = Instant { ticks: u64::MAX - 1 };
    assert_eq!(
        deadline_from(now, CoreDuration { secs: 0, nanos: 1_000 }),
        Ok(Instant { ticks: u64::MAX })
    );
    assert_eq!(
        deadline_from(now, CoreDuration { secs: 0, nanos: 1_001 }),
        Err(ClockError::Overflow)
    );
}

#[test]
fn long_durations_are_clamped() {
    let start = Instant { ticks: 0 };
    for (secs, nanos, ticks) in [
        (18_446_744_073, 709_550_615, 18_446_744_073_709_551),
        (18_446_744_073, 709_550_616, 18_446_744_073_709_551),
        (18_446_744_073, 709_551_000, 18_446_744_073_709_551),
        (18_446_744_073, 709_551_001, 18_446_744_073_709_552),
        (18_446_744_073, 709_551_615, 18_446_744_073_709_552),
        (18_446_744_073, 709_551_616, 18_446_744_073_709_552),
        (u64::MAX, 999_999_999, 18_446_744_073_709_552),
    ] {
        assert_eq!(
            deadline_from(start, CoreDuration { secs, nanos }),
            Ok(Instant { ticks })
        );
    }
}

#[test]
fn deadline_from_now_follows_the_clock() {
    let before = embassy_time::Instant::now().as_ticks();
    let deadline = deadline_from_now(CoreDuration { secs: 10, nanos: 0 }).unwrap();
    let after = embassy_time::Instant::now().as_ticks();
    assert!(deadline.ticks >= before + 10_000_000);
    assert!(deadline.ticks <= after + 10_000_000);
    let longest = deadline_from_now(CoreDuration { secs: u64::MAX, nanos: 0 }).unwrap();
    assert!(longest.ticks >= before + 18_446_744_073_709_552);
}

#[test]
fn instants_add_and_compare() {
    let a = Instant { ticks: 5 };
    let b = Instant { ticks: 9 };
    assert_eq!(a.min(b), a);
    assert_eq!(b.min(a), a);
    assert_eq!(a.checked_add(EmbassyDuration { ticks: 4 }), Some(b));
    assert_eq!(b.checked_add(EmbassyDuration { ticks: u64::MAX - 8 }), None);
}
