use mqtt_shell::backoff::{Backoff, INITIAL_DELAY_SECS, MAX_DELAY_SECS};

#[test]
fn backoff_starts_at_one_second() {
    let b = Backoff::new();
    assert_eq!(b.delay_secs(), 1);
    assert_eq!(INITIAL_DELAY_SECS, 1);
    assert_eq!(MAX_DELAY_SECS, 30);
}

#[test]
fn backoff_doubles_up_to_the_cap() {
    let mut b = Backoff::new();
    let mut waits = Vec::new();
    for _ in 0..8 {
        waits.push(b.on_failure());
    }
    assert_eq!(waits, vec![1, 2, 4, 8, 16, 30, 30, 30]);
}

#[test]
fn backoff_failure_returns_the_delay_in_force() {
    let mut b = Backoff::new();
    assert_eq!(b.on_failure(), 1);
    assert_eq!(b.delay_secs(), 2);
    assert_eq!(b.on_failure(), 2);
    assert_eq!(b.delay_secs(), 4);
}

#[test]
fn backoff_sixteen_is_followed_by_thirty_not_thirty_two() {
    let mut b = Backoff::new();
    for _ in 0..4 {
        b.on_failure();
    }
    assert_eq!(b.delay_secs(), 16);
    assert_eq!(b.on_failure(), 16);
    assert_eq!(b.delay_secs(), 30);
}

#[test]
fn backoff_stays_at_the_cap() {
    let mut b = Backoff::new();
    for _ in 0..100 {
        b.on_failure();
    }
    assert_eq!(b.delay_secs(), 30);
    assert_eq!(b.on_failure(), 30);
}

#[test]
fn backoff_success_resets_to_one_second() {
    let mut b = Backoff::new();
    for _ in 0..4 {
        b.on_failure();
    }
    assert_eq!(b.delay_secs(), 16);
    b.on_success();
    assert_eq!(b.delay_secs(), 1);
    assert_eq!(b.on_failure(), 1);
    assert_eq!(b.delay_secs(), 2);
}

#[test]
fn backoff_success_resets_from_the_cap() {
    let mut b = Backoff::new();
    for _ in 0..10 {
        b.on_failure();
    }
    b.on_success();
    let mut waits = Vec::new();
    for _ in 0..7 {
        waits.push(b.on_failure());
    }
    assert_eq!(waits, vec![1, 2, 4, 8, 16, 30, 30]);
}
