use remvora_agent::reconnect::{control_backoff, Retry};
use std::time::Duration;

#[test]
fn prolonged_outage_stays_bounded_and_success_restores_fast_retry() {
    let mut retry = Retry::default();
    for _ in 0..100 {
        let delay = retry.next_delay(249);
        assert!(delay >= Duration::from_millis(500));
        assert!(delay < Duration::from_secs(5));
    }
    retry.connected();
    assert!(retry.next_delay(249) < Duration::from_secs(1));
}

#[test]
fn retry_delay_doubles_then_saturates() {
    let mut retry = Retry::default();
    assert_eq!(retry.next_delay(0), Duration::from_millis(500));
    assert_eq!(retry.next_delay(0), Duration::from_millis(1000));
    assert_eq!(retry.next_delay(0), Duration::from_millis(2000));
    assert_eq!(retry.next_delay(0), Duration::from_millis(4000));
    assert_eq!(retry.next_delay(0), Duration::from_millis(4000));
    assert_eq!(retry.next_delay(10_000), Duration::from_millis(4249));
    retry.connected();
    assert_eq!(retry.next_delay(100), Duration::from_millis(600));
}

#[test]
fn control_backoff_saturates_at_sixty_four_seconds() {
    assert_eq!(control_backoff(0, 1234), (1, 2234));
    assert_eq!(control_backoff(5, 999), (6, 64_999));
    assert_eq!(control_backoff(6, 1000), (6, 64_000));
}
