use rmqtt::time::{Duration, Instant, MAX_INSTANT_NANOS};

#[test]
fn spans_are_counted_in_nanoseconds() {
    assert_eq!(Duration::zero().nanos, 0);
    assert!(Duration::zero().is_zero());
    assert!(!Duration::from_nanos(1).is_zero());
    assert_eq!(Duration::from_secs(2).nanos, 2_000_000_000);
    assert_eq!(Duration::from_nanos(1_999_999_999).as_secs(), 1);
    assert_eq!(Duration::from_nanos(1_999_999).as_millis(), 1);
    assert_eq!(Duration::from_secs(u64::MAX).as_secs(), u64::MAX as u128);
    assert_eq!(Duration::max().as_secs(), u64::MAX as u128);
}

#[test]
fn instants_end_with_the_clock() {
    let start = Instant::from_nanos(5);
    assert_eq!(start.checked_add(Duration::from_nanos(7)), Some(Instant::from_nanos(12)));
    assert_eq!(start.checked_add(Duration::max()), None);
    let last = Instant::from_nanos(MAX_INSTANT_NANOS);
    assert_eq!(last.checked_add(Duration::zero()), Some(last));
    assert_eq!(last.checked_add(Duration::from_nanos(1)), None);
}

#[test]
fn spans_between_instants_saturate() {
    let earlier = Instant::from_nanos(10);
    let later = Instant::from_nanos(25);
    assert_eq!(later.duration_since(earlier), Duration::from_nanos(15));
    assert_eq!(earlier.duration_since(later), Duration::zero());
}
