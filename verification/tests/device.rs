use std::time::Duration;

use squeak::hid::device::{poll_slice_ms, poll_slice_us, TIMEOUT_MS};

const TIMEOUT: Duration = Duration::from_millis(TIMEOUT_MS);

#[test]
fn poll_slice_is_capped_while_budget_remains() {
    assert_eq!(poll_slice_ms(Duration::ZERO), Some(200));
    assert_eq!(poll_slice_ms(TIMEOUT - Duration::from_millis(500)), Some(200));
    assert_eq!(poll_slice_ms(TIMEOUT - Duration::from_millis(100)), Some(100));
}

#[test]
fn poll_slice_never_returns_zero() {
    // Sub-millisecond remainder still polls once rather than spinning.
    assert_eq!(poll_slice_ms(TIMEOUT - Duration::from_micros(400)), Some(1));
}

#[test]
fn poll_slice_ends_at_and_past_the_deadline() {
    assert_eq!(poll_slice_ms(TIMEOUT), None);
    // Overshoot past the deadline ends the wait instead of underflowing.
    assert_eq!(poll_slice_ms(TIMEOUT + Duration::from_millis(1)), None);
    assert_eq!(poll_slice_ms(Duration::from_secs(3600)), None);
}

#[test]
fn poll_slice_rounds_the_remainder_up() {
    // 150.5 ms left -> 151 ms; 1 µs left -> 1 ms.
    assert_eq!(poll_slice_us(849_500), Some(151));
    assert_eq!(poll_slice_us(999_999), Some(1));
    assert_eq!(poll_slice_us(u128::MAX), None);
}
