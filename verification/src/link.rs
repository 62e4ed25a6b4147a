//! The connection state machine that both transport loops share.
//!
//! One attempt runs `connect`, then two subscribes, then `ready`. A failure
//! at any point leads to a wait of the current back-off delay and a new
//! attempt. Entering `ready` resets the delay to one second.

use crate::backoff::{
    delay_after_failures, next_delay, Backoff, INITIAL_DELAY_SECS, MAX_DELAY_SECS,
};
use vstd::prelude::*;

verus! {

/// Seconds between keep-alive probes to the broker.
pub const KEEP_ALIVE_SECS: u64 = 5;

/// Where a transport loop stands in its current attempt.
#[derive(Clone, Copy, Debug, PartialEq, Eq, Structural)]
pub enum LinkPhase {
    /// A connection is being set up.
    Connecting,
    /// The first subscribe is under way.
    SubscribingFirst,
    /// The second subscribe is under way.
    SubscribingSecond,
    /// Both subscribes succeeded; traffic flows.
    Ready,
    /// The attempt failed; the loop waits before the next one.
    BackingOff,
}

/// What the transport reports about the attempt itself.
#[derive(Clone, Copy, Debug, PartialEq, Eq, Structural)]
pub enum Signal {
    /// The connection was set up.
    Connected,
    /// The subscribe under way was accepted.
    Subscribed,
    /// Connecting, subscribing or the established connection failed.
    Failed,
    /// The back-off wait is over.
    DelayElapsed,
}

/// What the transport reports to a loop.
#[derive(Debug, PartialEq, Eq)]
pub enum TransportEvent {
    /// The connection was set up.
    Connected,
    /// The subscribe under way was accepted.
    Subscribed,
    /// Connecting, subscribing or the established connection failed.
    Failed,
    /// The back-off wait is over.
    DelayElapsed,
    /// A message arrived on a topic.
    Message { topic: String, payload: Vec<u8> },
    /// The broker acknowledged the connection.
    ConnAck,
    /// Any other notification of the transport.
    Other,
}

/// The signal that an event carries, if it is about the attempt itself.
pub open spec fn signal_of(event: TransportEvent) -> Option<Signal> {
    match event {
        TransportEvent::Connected => Some(Signal::Connected),
        TransportEvent::Subscribed => Some(Signal::Subscribed),
        TransportEvent::Failed => Some(Signal::Failed),
        TransportEvent::DelayElapsed => Some(Signal::DelayElapsed),
        _ => None,
    }
}

/// What the loop has to do after a signal.
#[derive(Clone, Copy, Debug, PartialEq, Eq, Structural)]
pub enum Transition {
    /// The signal does not belong to the current phase; nothing changes.
    Ignored,
    /// Issue the first subscribe.
    SubscribeFirst,
    /// Issue the second subscribe.
    SubscribeSecond,
    /// The link is ready: start what runs only while connected.
    Established,
    /// Stop what runs only while connected, if it was running, wait
    /// `wait_secs`, then report `DelayElapsed`.
    Retreat { was_ready: bool, wait_secs: u64 },
    /// Set up a new connection.
    Reconnect,
}

/// The phase that follows `phase` on `signal`.
pub open spec fn phase_after(phase: LinkPhase, signal: Signal) -> LinkPhase {
    match (phase, signal) {
        (LinkPhase::Connecting, Signal::Connected) => LinkPhase::SubscribingFirst,
        (LinkPhase::SubscribingFirst, Signal::Subscribed) => LinkPhase::SubscribingSecond,
        (LinkPhase::SubscribingSecond, Signal::Subscribed) => LinkPhase::Ready,
        (LinkPhase::BackingOff, Signal::DelayElapsed) => LinkPhase::Connecting,
        (_, Signal::Failed) => LinkPhase::BackingOff,
        _ => phase,
    }
}

/// The back-off delay that follows `delay` when `signal` arrives in `phase`.
pub open spec fn delay_after(phase: LinkPhase, delay: int, signal: Signal) -> int {
    match (phase, signal) {
        (LinkPhase::SubscribingSecond, Signal::Subscribed) => INITIAL_DELAY_SECS as int,
        (LinkPhase::BackingOff, Signal::Failed) => delay,
        (_, Signal::Failed) => next_delay(delay),
        _ => delay,
    }
}

/// What the loop has to do when `signal` arrives in `phase` with the
/// back-off delay `delay`.
pub open spec fn transition_of(phase: LinkPhase, delay: int, signal: Signal) -> Transition {
    match (phase, signal) {
        (LinkPhase::Connecting, Signal::Connected) => Transition::SubscribeFirst,
        (LinkPhase::SubscribingFirst, Signal::Subscribed) => Transition::SubscribeSecond,
        (LinkPhase::SubscribingSecond, Signal::Subscribed) => Transition::Established,
        (LinkPhase::BackingOff, Signal::DelayElapsed) => Transition::Reconnect,
        (LinkPhase::BackingOff, Signal::Failed) => Transition::Ignored,
        (_, Signal::Failed) => Transition::Retreat {
            was_ready: phase == LinkPhase::Ready,
            wait_secs: delay as u64,
        },
        _ => Transition::Ignored,
    }
}

/// The connection state of one transport loop.
#[derive(Clone, Copy, Debug)]
pub struct Link {
    phase: LinkPhase,
    backoff: Backoff,
}

impl Link {
    /// The current phase.
    pub closed spec fn phase_spec(self) -> LinkPhase {
        self.phase
    }

    /// The current back-off delay in seconds.
    pub closed spec fn delay(self) -> int {
        self.backoff.secs()
    }

    /// A link at the start of its first attempt: connecting, with a delay
    /// of one second.
    pub fn new() -> (link: Link)
        ensures
            link.phase_spec() == LinkPhase::Connecting,
            link.delay() == INITIAL_DELAY_SECS,
    {
        Link { phase: LinkPhase::Connecting, backoff: Backoff::new() }
    }

    /// The current phase.
    pub fn phase(&self) -> (phase: LinkPhase)
        ensures
            phase == self.phase_spec(),
    {
        self.phase
    }

    /// Whether traffic flows.
    pub fn is_ready(&self) -> (ready: bool)
        ensures
            ready == (self.phase_spec() == LinkPhase::Ready),
    {
        match self.phase {
            LinkPhase::Ready => true,
            _ => false,
        }
    }

    /// The current back-off delay in seconds.
    pub fn delay_secs(&self) -> (secs: u64)
        ensures
            secs == self.delay(),
            INITIAL_DELAY_SECS <= secs <= MAX_DELAY_SECS,
    {
        self.backoff.delay_secs()
    }

    /// Takes a signal from the transport and says what to do next.
    pub fn on_signal(&mut self, signal: Signal) -> (transition: Transition)
        ensures
            final(self).phase_spec() == phase_after(old(self).phase_spec(), signal),
            final(self).delay() == delay_after(old(self).phase_spec(), old(self).delay(), signal),
            transition == transition_of(old(self).phase_spec(), old(self).delay(), signal),
    {
        match (self.phase, signal) {
            (LinkPhase::Connecting, Signal::Connected) => {
                self.phase = LinkPhase::SubscribingFirst;
                Transition::SubscribeFirst
            },
            (LinkPhase::SubscribingFirst, Signal::Subscribed) => {
                self.phase = LinkPhase::SubscribingSecond;
                Transition::SubscribeSecond
            },
            (LinkPhase::SubscribingSecond, Signal::Subscribed) => {
                self.phase = LinkPhase::Ready;
                self.backoff.on_success();
                Transition::Established
            },
            (LinkPhase::BackingOff, Signal::DelayElapsed) => {
                self.phase = LinkPhase::Connecting;
                Transition::Reconnect
            },
            (LinkPhase::BackingOff, Signal::Failed) => Transition::Ignored,
            (phase, Signal::Failed) => {
                let was_ready = match phase {
                    LinkPhase::Ready => true,
                    _ => false,
                };
                let wait_secs = self.backoff.on_failure();
                self.phase = LinkPhase::BackingOff;
                Transition::Retreat { was_ready, wait_secs }
            },
            _ => Transition::Ignored,
        }
    }
}

/// The delay in force at a link that was reset and has since gone through
/// `failures` failed attempts, each followed by its wait.
pub open spec fn delay_after_failed_attempts(failures: nat) -> int
    decreases failures,
{
    if failures == 0 {
        INITIAL_DELAY_SECS as int
    } else {
        let before = delay_after_failed_attempts((failures - 1) as nat);
        delay_after(
            LinkPhase::BackingOff,
            delay_after(LinkPhase::Connecting, before, Signal::Failed),
            Signal::DelayElapsed,
        )
    }
}

/// Consecutive failed attempts wait 1, 2, 4, 8, 16, 30, 30, ... seconds:
/// the attempt after `failures` failures waits `delay_after_failures`.
pub proof fn lemma_consecutive_failures(failures: nat)
    ensures
        delay_after_failed_attempts(failures) == delay_after_failures(failures),
        transition_of(
            LinkPhase::Connecting,
            delay_after_failed_attempts(failures),
            Signal::Failed,
        ) == (Transition::Retreat {
            was_ready: false,
            wait_secs: delay_after_failures(failures) as u64,
        }),
    decreases failures,
{
    if failures > 0 {
        lemma_consecutive_failures((failures - 1) as nat);
    }
}

/// One failed attempt and its wait: the loop waits the delay in force,
/// steps the delay, and is connecting again.
pub proof fn lemma_failed_attempt(phase: LinkPhase, delay: int)
    requires
        phase != LinkPhase::BackingOff,
        INITIAL_DELAY_SECS <= delay <= MAX_DELAY_SECS,
    ensures
        transition_of(phase, delay, Signal::Failed) == (Transition::Retreat {
            was_ready: phase == LinkPhase::Ready,
            wait_secs: delay as u64,
        }),
        phase_after(phase_after(phase, Signal::Failed), Signal::DelayElapsed)
            == LinkPhase::Connecting,
        delay_after(
            phase_after(phase, Signal::Failed),
            delay_after(phase, delay, Signal::Failed),
            Signal::DelayElapsed,
        ) == next_delay(delay),
{
}

/// A full successful attempt ends ready with a delay of one second,
/// whatever the delay was before.
pub proof fn lemma_success_resets_delay(delay: int)
    ensures
        ({
            let connected = phase_after(LinkPhase::Connecting, Signal::Connected);
            let delay_connected = delay_after(LinkPhase::Connecting, delay, Signal::Connected);
            let subscribed = phase_after(connected, Signal::Subscribed);
            let delay_subscribed = delay_after(connected, delay_connected, Signal::Subscribed);
            let ready = phase_after(subscribed, Signal::Subscribed);
            let delay_ready = delay_after(subscribed, delay_subscribed, Signal::Subscribed);
            ready == LinkPhase::Ready && delay_ready == INITIAL_DELAY_SECS
        }),
{
}

/// What runs only while connected is started exactly when the link becomes
/// ready, and stopped exactly when a ready link fails.
pub proof fn lemma_ready_brackets_forwarding(phase: LinkPhase, delay: int, signal: Signal)
    ensures
        transition_of(phase, delay, signal) == Transition::Established <==> (phase
            != LinkPhase::Ready && phase_after(phase, signal) == LinkPhase::Ready),
        (transition_of(phase, delay, signal) is Retreat && transition_of(
            phase,
            delay,
            signal,
        )->was_ready) <==> (phase == LinkPhase::Ready && phase_after(phase, signal)
            != LinkPhase::Ready),
{
}

/// The link is ready only after a connect and two accepted subscribes: a
/// failed subscribe never leads to `Ready`.
pub proof fn lemma_ready_needs_both_subscribes(phase: LinkPhase, signal: Signal)
    ensures
        phase_after(phase, signal) == LinkPhase::Ready ==> phase == LinkPhase::Ready || (phase
            == LinkPhase::SubscribingSecond && signal == Signal::Subscribed),
        signal == Signal::Failed ==> phase_after(phase, signal) == LinkPhase::BackingOff,
{
}

} // verus!
