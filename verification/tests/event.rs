use guit::event::{poll_timeout, tick_due, TICK_RATE_MILLIS};

#[test]
fn tick_rate_is_a_quarter_second() {
    assert_eq!(TICK_RATE_MILLIS, 250);
}

#[test]
fn poll_timeout_is_the_rest_of_the_interval() {
    assert_eq!(poll_timeout(250, 0), 250);
    assert_eq!(poll_timeout(250, 100), 150);
    assert_eq!(poll_timeout(250, 249), 1);
}

#[test]
fn poll_timeout_is_zero_once_the_interval_has_passed() {
    assert_eq!(poll_timeout(250, 250), 0);
    assert_eq!(poll_timeout(250, 251), 0);
    assert_eq!(poll_timeout(250, u64::MAX), 0);
    assert_eq!(poll_timeout(0, 0), 0);
}

#[test]
fn tick_is_due_when_the_interval_has_passed() {
    assert!(!tick_due(250, 0));
    assert!(!tick_due(250, 249));
    assert!(tick_due(250, 250));
    assert!(tick_due(250, 1000));
    assert!(tick_due(0, 0));
}
