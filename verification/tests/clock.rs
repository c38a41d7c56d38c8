use chaser_resolverr::clock::{epoch_ms, low_64_bits, now_ms, now_seconds, Timestamp};
use std::time::{Duration, SystemTime, UNIX_EPOCH};

#[test]
fn milliseconds_are_whole_and_wrap() {
    assert_eq!(epoch_ms(None), 0);
    assert_eq!(epoch_ms(Some(Duration::new(1, 999_999))), 1000);
    assert_eq!(epoch_ms(Some(Duration::MAX)), Duration::MAX.as_millis() as u64);
    assert_eq!(low_64_bits(u64::MAX as u128 + 6), 5);
}

#[test]
fn clock_shows_the_present() {
    let before = SystemTime::now().duration_since(UNIX_EPOCH).unwrap();
    let ms = now_ms();
    let secs = now_seconds();
    let at = Timestamp::now();
    let after = SystemTime::now().duration_since(UNIX_EPOCH).unwrap();
    assert!(before.as_millis() as u64 <= ms && ms <= after.as_millis() as u64);
    assert!(before.as_secs() as i64 <= secs && secs <= after.as_secs() as i64);
    assert!(before.as_secs() as i64 <= at.secs && at.secs <= after.as_secs() as i64);
    assert!(at.nanos < 1_000_000_000);
    assert!(at.rfc3339().is_some());
}

#[test]
fn times_are_told_in_utc_with_milliseconds() {
    let text = |secs, nanos| Timestamp { secs, nanos }.rfc3339();
    assert_eq!(text(0, 0).as_deref(), Some("1970-01-01T00:00:00.000Z"));
    assert_eq!(text(1_700_000_000, 123_999_999).as_deref(), Some("2023-11-14T22:13:20.123Z"));
    assert_eq!(text(-1, 0).as_deref(), Some("1969-12-31T23:59:59.000Z"));
    assert_eq!(text(i64::MAX, 0), None);
}

#[test]
fn minutes_are_counted_exactly() {
    let start = Timestamp { secs: 100, nanos: 5 };
    assert!(!Timestamp { secs: 160, nanos: 5 }.is_past(&start, 1));
    assert!(Timestamp { secs: 160, nanos: 6 }.is_past(&start, 1));
    assert!(!start.is_past(&start, 0));
    let far = Timestamp { secs: i64::MAX, nanos: u32::MAX };
    assert!(far.is_past(&Timestamp { secs: i64::MIN, nanos: 0 }, u32::MAX));
}
