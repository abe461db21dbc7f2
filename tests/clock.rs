use abbegm::msg::EgmClock;
use std::time::Duration;

#[test]
fn test_clock_to_duration() {
    assert!(EgmClock::new(0, 0).elapsed_since_epoch() == Duration::new(0, 0));
    assert!(EgmClock::new(1, 0).elapsed_since_epoch() == Duration::new(1, 0));
    assert!(EgmClock::new(2, 123).elapsed_since_epoch() == Duration::new(2, 000_123_000));
    assert!(EgmClock::new(3, 987_654).elapsed_since_epoch() == Duration::new(3, 987_654_000));
    assert!(EgmClock::new(4, 2_345_000).elapsed_since_epoch() == Duration::new(6, 345_000_000));
}

#[test]
fn test_clock_to_timestampc() {
    assert!(EgmClock::new(0, 0).as_timestamp_ms() == 0);
    assert!(EgmClock::new(1, 0).as_timestamp_ms() == 1_000);
    assert!(EgmClock::new(2, 123).as_timestamp_ms() == 2_000);
    assert!(EgmClock::new(3, 987_654).as_timestamp_ms() == 3_987);
    assert!(EgmClock::new(4, 2_345_000).as_timestamp_ms() == 6_345);
}

#[test]
fn test_add_duration() {
    assert!(EgmClock::new(1, 500_000) + Duration::from_secs(1) == EgmClock::new(2, 500_000));
    assert!(EgmClock::new(1, 500_000) + Duration::from_millis(600) == EgmClock::new(2, 100_000));
    assert!(&EgmClock::new(1, 500_000) + &Duration::from_secs(1) == EgmClock::new(2, 500_000));
    assert!(&EgmClock::new(1, 500_000) + &Duration::from_millis(600) == EgmClock::new(2, 100_000));
    assert!(Duration::from_secs(1) + EgmClock::new(1, 500_000) == EgmClock::new(2, 500_000));
    assert!(Duration::from_millis(600) + EgmClock::new(1, 500_000) == EgmClock::new(2, 100_000));
    assert!(&Duration::from_secs(1) + &EgmClock::new(1, 500_000) == EgmClock::new(2, 500_000));
    assert!(&Duration::from_millis(600) + &EgmClock::new(1, 500_000) == EgmClock::new(2, 100_000));

    let mut clock = EgmClock::new(10, 999_999);
    clock += Duration::from_micros(1);
    assert!(clock == EgmClock::new(11, 0));
    clock += Duration::from_micros(999_999);
    assert!(clock == EgmClock::new(11, 999_999));
    clock += Duration::from_micros(2);
    assert!(clock == EgmClock::new(12, 1));
}

#[test]
fn add_duration_carries_through_seconds() {
    let mut clock = EgmClock::new(10, 999_999);
    clock += &Duration::from_micros(2);
    assert_eq!(clock, EgmClock::new(11, 1));
    assert_eq!(EgmClock::new(10, 999_999).add_duration(Duration::from_micros(2)), EgmClock::new(11, 1));
}

#[test]
fn add_duration_normalizes_raw_microseconds() {
    assert_eq!(EgmClock::new(4, 2_345_000) + Duration::from_secs(0), EgmClock::new(6, 345_000));
}

#[test]
fn add_duration_drops_sub_microsecond_part() {
    assert_eq!(EgmClock::new(1, 0) + Duration::new(0, 1_999), EgmClock::new(1, 1));
}

#[test]
fn timestamp_wraps_to_32_bits() {
    // 4_294_968 s is 4_294_968_000 ms, which is 704 past 2^32.
    assert_eq!(EgmClock::new(4_294_968, 0).as_timestamp_ms(), 704);
    assert_eq!(EgmClock::new(u64::MAX, 0).as_timestamp_ms(), (u64::MAX.wrapping_mul(1000)) as u32);
}

#[test]
fn checked_add_duration_reports_overflow() {
    assert_eq!(EgmClock::new(u64::MAX, 0).checked_add_duration(Duration::from_secs(1)), None);
    assert_eq!(EgmClock::new(u64::MAX, 999_999).checked_add_duration(Duration::from_micros(1)), None);
    assert_eq!(EgmClock::new(0, u64::MAX).checked_add_duration(Duration::from_micros(1)), None);
    assert_eq!(
        EgmClock::new(u64::MAX - 1, 999_999).checked_add_duration(Duration::from_micros(1)),
        Some(EgmClock::new(u64::MAX, 0))
    );
    assert_eq!(
        EgmClock::new(1, 500_000).checked_add_duration(Duration::from_millis(600)),
        Some(EgmClock::new(2, 100_000))
    );
}
