use mqtt_shell::link::{Link, LinkPhase, Signal, Transition, KEEP_ALIVE_SECS};

fn ready_link() -> Link {
    let mut link = Link::new();
    link.on_signal(Signal::Connected);
    link.on_signal(Signal::Subscribed);
    link.on_signal(Signal::Subscribed);
    link
}

#[test]
fn link_starts_connecting_with_one_second() {
    let link = Link::new();
    assert_eq!(link.phase(), LinkPhase::Connecting);
    assert_eq!(link.delay_secs(), 1);
    assert!(!link.is_ready());
    assert_eq!(KEEP_ALIVE_SECS, 5);
}

#[test]
fn link_goes_through_connect_and_two_subscribes() {
    let mut link = Link::new();
    assert_eq!(link.on_signal(Signal::Connected), Transition::SubscribeFirst);
    assert_eq!(link.phase(), LinkPhase::SubscribingFirst);
    assert_eq!(link.on_signal(Signal::Subscribed), Transition::SubscribeSecond);
    assert_eq!(link.phase(), LinkPhase::SubscribingSecond);
    assert_eq!(link.on_signal(Signal::Subscribed), Transition::Established);
    assert_eq!(link.phase(), LinkPhase::Ready);
    assert!(link.is_ready());
}

#[test]
fn link_failed_first_subscribe_never_reaches_ready() {
    let mut link = Link::new();
    link.on_signal(Signal::Connected);
    assert_eq!(
        link.on_signal(Signal::Failed),
        Transition::Retreat { was_ready: false, wait_secs: 1 }
    );
    assert_eq!(link.phase(), LinkPhase::BackingOff);
    assert_eq!(link.on_signal(Signal::Subscribed), Transition::Ignored);
    assert_eq!(link.phase(), LinkPhase::BackingOff);
}

#[test]
fn link_failed_second_subscribe_never_reaches_ready() {
    let mut link = Link::new();
    link.on_signal(Signal::Connected);
    link.on_signal(Signal::Subscribed);
    assert_eq!(
        link.on_signal(Signal::Failed),
        Transition::Retreat { was_ready: false, wait_secs: 1 }
    );
    assert!(!link.is_ready());
}

#[test]
fn link_failure_while_ready_stops_what_ran() {
    let mut link = ready_link();
    assert_eq!(
        link.on_signal(Signal::Failed),
        Transition::Retreat { was_ready: true, wait_secs: 1 }
    );
    assert_eq!(link.phase(), LinkPhase::BackingOff);
    assert_eq!(link.delay_secs(), 2);
}

#[test]
fn link_reconnects_after_the_wait() {
    let mut link = Link::new();
    link.on_signal(Signal::Failed);
    assert_eq!(link.on_signal(Signal::DelayElapsed), Transition::Reconnect);
    assert_eq!(link.phase(), LinkPhase::Connecting);
}

#[test]
fn link_consecutive_failures_wait_longer_each_time() {
    let mut link = Link::new();
    let mut waits = Vec::new();
    for _ in 0..8 {
        match link.on_signal(Signal::Failed) {
            Transition::Retreat { was_ready, wait_secs } => {
                assert!(!was_ready);
                waits.push(wait_secs);
            }
            other => panic!("unexpected {:?}", other),
        }
        assert_eq!(link.on_signal(Signal::DelayElapsed), Transition::Reconnect);
    }
    assert_eq!(waits, vec![1, 2, 4, 8, 16, 30, 30, 30]);
}

#[test]
fn link_success_resets_the_delay() {
    let mut link = Link::new();
    for _ in 0..5 {
        link.on_signal(Signal::Failed);
        link.on_signal(Signal::DelayElapsed);
    }
    assert_eq!(link.delay_secs(), 30);
    link.on_signal(Signal::Connected);
    link.on_signal(Signal::Subscribed);
    assert_eq!(link.delay_secs(), 30);
    link.on_signal(Signal::Subscribed);
    assert_eq!(link.delay_secs(), 1);
    assert_eq!(
        link.on_signal(Signal::Failed),
        Transition::Retreat { was_ready: true, wait_secs: 1 }
    );
}

#[test]
fn link_failure_during_the_wait_is_not_counted() {
    let mut link = Link::new();
    link.on_signal(Signal::Failed);
    assert_eq!(link.delay_secs(), 2);
    assert_eq!(link.on_signal(Signal::Failed), Transition::Ignored);
    assert_eq!(link.delay_secs(), 2);
    assert_eq!(link.phase(), LinkPhase::BackingOff);
}

#[test]
fn link_ignores_signals_that_do_not_fit_the_phase() {
    let mut link = Link::new();
    assert_eq!(link.on_signal(Signal::Subscribed), Transition::Ignored);
    assert_eq!(link.on_signal(Signal::DelayElapsed), Transition::Ignored);
    assert_eq!(link.phase(), LinkPhase::Connecting);
    let mut ready = ready_link();
    assert_eq!(ready.on_signal(Signal::Connected), Transition::Ignored);
    assert_eq!(ready.on_signal(Signal::Subscribed), Transition::Ignored);
    assert_eq!(ready.on_signal(Signal::DelayElapsed), Transition::Ignored);
    assert_eq!(ready.phase(), LinkPhase::Ready);
    assert_eq!(ready.delay_secs(), 1);
}
