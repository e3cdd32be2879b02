use cloud_speed::fixed::Fixed;
use cloud_speed::time::{duration_ms, duration_seconds, micros_since_epoch, whole_millis};
use std::time::Duration;

#[test]
fn test_micros_since_epoch() {
    assert_eq!(micros_since_epoch(None), 0);
    assert_eq!(micros_since_epoch(Some(Duration::ZERO)), 0);
    assert_eq!(micros_since_epoch(Some(Duration::from_nanos(999))), 0);
    assert_eq!(micros_since_epoch(Some(Duration::from_nanos(1_000))), 1);
    assert_eq!(micros_since_epoch(Some(Duration::from_nanos(1_999))), 1);
    assert_eq!(
        micros_since_epoch(Some(Duration::from_secs(1_700_000_000))),
        1_700_000_000_000_000
    );
    // More microseconds than a u64 holds: the largest number.
    assert_eq!(micros_since_epoch(Some(Duration::from_secs(u64::MAX))), u64::MAX);
    assert_eq!(micros_since_epoch(Some(Duration::MAX)), u64::MAX);
}

#[test]
fn test_whole_millis() {
    assert_eq!(whole_millis(0), 0);
    assert_eq!(whole_millis(999), 0);
    assert_eq!(whole_millis(1_000), 1);
    assert_eq!(whole_millis(1_700_000_000_123_456), 1_700_000_000_123);
    assert_eq!(whole_millis(u64::MAX), 18_446_744_073_709_551);
}

#[test]
fn test_duration_conversions() {
    assert_eq!(duration_ms(Duration::from_micros(12_500)), Fixed::from_millionths(12_500_000));
    assert_eq!(duration_ms(Duration::from_nanos(1)), Fixed::from_millionths(1));
    assert_eq!(duration_ms(Duration::MAX), Fixed::from_millionths(i64::MAX));
    assert_eq!(duration_seconds(Duration::from_millis(2_500)), Fixed::from_millionths(2_500_000));
    assert_eq!(duration_seconds(Duration::from_nanos(1_999)), Fixed::from_millionths(1));
    assert_eq!(duration_seconds(Duration::MAX), Fixed::from_millionths(i64::MAX));
}
