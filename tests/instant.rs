use std::time::Duration;

use instant::Instant;

#[test]
fn reading_splits_into_seconds_and_nanoseconds() {
    // 1500.25 ms: 1500 whole milliseconds and 250_000 ns of the fraction.
    let t = Instant::now(1500, 250_000);
    assert_eq!(t.since_origin(), Duration::new(1, 500_250_000));
    assert_eq!(t.since_origin().as_secs(), 1);
    assert_eq!(t.since_origin().subsec_nanos(), 500_250_000);
}

#[test]
fn reading_of_zero_is_the_origin() {
    assert_eq!(Instant::now(0, 0).since_origin(), Duration::ZERO);
}

#[test]
fn reading_with_a_full_second_of_fraction_carries() {
    let t = Instant::now(999, 2_000_000);
    assert_eq!(t.since_origin(), Duration::new(1, 1_000_000));
}

#[test]
fn largest_reading_is_representable() {
    let t = Instant::now(u64::MAX, u64::MAX);
    let expected = Duration::from_millis(u64::MAX) + Duration::from_nanos(u64::MAX);
    assert_eq!(t.since_origin(), expected);
}

#[test]
fn elapsed_immediately_is_zero() {
    let t = Instant::now(42, 17);
    assert_eq!(t.elapsed(t), Duration::ZERO);
    assert!(t.elapsed(t) < Duration::from_secs(1));
}

#[test]
fn elapsed_until_a_later_reading() {
    let t = Instant::now(1000, 0);
    let later = Instant::now(1250, 500);
    assert_eq!(t.elapsed(later), Duration::new(0, 250_000_500));
}

#[test]
fn duration_since_earlier_instant() {
    let earlier = Instant::now(1_700, 900_000);
    let later = Instant::now(3_200, 100_000);
    assert_eq!(later.duration_since(earlier), Duration::new(1, 499_200_000));
    assert_eq!(later - earlier, Duration::new(1, 499_200_000));
    assert_eq!(later.duration_since(later), Duration::ZERO);
}

#[test]
fn later_addition_orders_after() {
    let base = Instant::now(5, 0);
    let d1 = Duration::from_millis(3);
    let d2 = Duration::from_millis(7);
    assert!(base + d1 < base + d2);
    assert!(base + d1 <= base + d1);
    assert_eq!((base + d2).cmp(&(base + d1)), std::cmp::Ordering::Greater);
}

#[test]
fn add_then_sub_round_trips() {
    let t = Instant::now(123_456, 789);
    let d = Duration::new(98_765, 999_999_999);
    assert_eq!((t + d) - d, t);
}

#[test]
fn add_moves_later_by_the_span() {
    let t = Instant::now(1_500, 0);
    let u = t + Duration::new(2, 600_000_000);
    assert_eq!(u.since_origin(), Duration::new(4, 100_000_000));
}

#[test]
fn checked_add_matches_add() {
    let t = Instant::now(10, 0);
    let d = Duration::new(3, 5);
    assert_eq!(t.checked_add(d), Some(t + d));
    assert_eq!(t.checked_add(d).unwrap().since_origin(), Duration::new(3, 10_000_005));
}

#[test]
fn checked_add_past_the_largest_span_is_none() {
    let t = Instant::now(0, 1);
    assert_eq!(t.checked_add(Duration::MAX), None);
    let origin = Instant::now(0, 0);
    let top = origin.checked_add(Duration::MAX);
    assert_eq!(top.map(|i| i.since_origin()), Some(Duration::MAX));
    assert_eq!(top.unwrap().checked_add(Duration::new(0, 1)), None);
    assert_eq!(top.unwrap().checked_add(Duration::ZERO), top);
}

#[test]
fn checked_sub_matches_sub() {
    let t = Instant::now(2_000, 0);
    let d = Duration::new(1, 250_000_000);
    assert_eq!(t.checked_sub(d), Some(t - d));
    assert_eq!(t.checked_sub(d).unwrap().since_origin(), Duration::new(0, 750_000_000));
}

#[test]
fn checked_sub_before_the_origin_is_none() {
    let t = Instant::now(2_000, 0);
    assert_eq!(t.checked_sub(Duration::new(2, 1)), None);
    assert_eq!(t.checked_sub(Duration::new(2, 0)), Some(Instant::now(0, 0)));
}

#[test]
fn add_assign_and_sub_assign() {
    let mut t = Instant::now(100, 0);
    t.add_assign(Duration::from_millis(900));
    assert_eq!(t, Instant::now(1_000, 0));
    t.sub_assign(Duration::from_millis(400));
    assert_eq!(t, Instant::now(600, 0));
}

#[test]
fn later_readings_never_order_earlier() {
    let a = Instant::now(7, 999_999);
    let b = Instant::now(8, 0);
    let c = Instant::now(8, 0);
    assert!(a < b);
    assert!(b <= c);
    assert_eq!(b, c);
    assert_eq!(b.partial_cmp(&c), Some(std::cmp::Ordering::Equal));
}
