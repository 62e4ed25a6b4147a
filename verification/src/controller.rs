//! The controller's transport loop as a state machine, and its resize
//! watcher.
//!
//! The loop connects, subscribes to the output and the status topic, and
//! announces the local terminal size as soon as it is ready. While ready
//! it hands shell output to the local terminal as it came and ends the
//! session when the agent reports `shell_exited`. Failures lead to the
//! same back-off as on the agent's side.

use crate::link::{
    delay_after, phase_after, signal_of, transition_of, Link, LinkPhase, Signal, TransportEvent,
    Transition,
};
use crate::resize::{wire_text, TerminalResize, DEFAULT_COLS, DEFAULT_ROWS};
use crate::status::{token_of, StatusToken};
use crate::topics::{kind_of, TopicKind, Topics};
use vstd::prelude::*;

verus! {

/// Milliseconds between two looks at the local terminal's size.
pub const RESIZE_POLL_MILLIS: u64 = 200;

/// What the controller's loop has to do next.
#[derive(Debug, PartialEq, Eq)]
pub enum ControllerAction {
    /// Nothing.
    Nothing,
    /// Set up a connection, then report `Connected` or `Failed`.
    Connect,
    /// Subscribe to the topic of this kind, then report `Subscribed` or
    /// `Failed`.
    Subscribe(TopicKind),
    /// Publish this payload on the resize topic.
    PublishResize(Vec<u8>),
    /// Write these bytes to the local terminal as they are, and flush.
    Render(Vec<u8>),
    /// End the local session.
    Terminate,
    /// Wait `wait_secs`, then report `DelayElapsed`.
    Backoff { wait_secs: u64 },
}

/// The size that a controller announces for an observation of its
/// terminal: the observed size if it is valid, else 24 rows by 80 columns.
pub open spec fn size_or_default(observed: Option<TerminalResize>) -> TerminalResize {
    match observed {
        Some(r) => if r.valid() {
            r
        } else {
            TerminalResize { rows: DEFAULT_ROWS, cols: DEFAULT_COLS }
        },
        None => TerminalResize { rows: DEFAULT_ROWS, cols: DEFAULT_COLS },
    }
}

/// Whether an observation of the terminal is a change worth announcing:
/// a valid size that differs from the last one.
pub open spec fn is_change(last: TerminalResize, observed: Option<TerminalResize>) -> bool {
    observed matches Some(r) && r.valid() && r != last
}

/// The controller's side of the transport: its topics, its connection
/// state, and the terminal size it announced last or will announce next.
pub struct Controller {
    topics: Topics,
    link: Link,
    size: TerminalResize,
}

impl Controller {
    /// The channel root of the session.
    pub closed spec fn root_text(self) -> Seq<char> {
        self.topics.root_text()
    }

    /// The phase of the connection.
    pub closed spec fn phase_spec(self) -> LinkPhase {
        self.link.phase_spec()
    }

    /// The back-off delay in seconds.
    pub closed spec fn delay(self) -> int {
        self.link.delay()
    }

    /// The terminal size that was announced last, or that will be
    /// announced when the link is ready.
    pub closed spec fn size_spec(self) -> TerminalResize {
        self.size
    }

    /// A controller for the session with the given channel root, about to
    /// make its first connection attempt. `observed` is the local
    /// terminal's size, or `None` if it cannot be read.
    pub fn new(root: &str, observed: Option<TerminalResize>) -> (controller: Controller)
        ensures
            controller.root_text() == root@,
            controller.phase_spec() == LinkPhase::Connecting,
            controller.delay() == 1,
            controller.size_spec() == size_or_default(observed),
    {
        let size = match observed {
            Some(r) => if r.is_valid() {
                r
            } else {
                TerminalResize::fallback()
            },
            None => TerminalResize::fallback(),
        };
        Controller { topics: Topics::new(root), link: Link::new(), size }
    }

    /// The topic names of the session.
    pub fn topics(&self) -> (topics: &Topics)
        ensures
            topics.root_text() == self.root_text(),
    {
        &self.topics
    }

    /// The phase of the connection.
    pub fn phase(&self) -> (phase: LinkPhase)
        ensures
            phase == self.phase_spec(),
    {
        self.link.phase()
    }

    /// The back-off delay in seconds.
    pub fn delay_secs(&self) -> (secs: u64)
        ensures
            secs == self.delay(),
    {
        self.link.delay_secs()
    }

    /// The terminal size that was announced last, or that will be
    /// announced when the link is ready.
    pub fn size(&self) -> (size: TerminalResize)
        ensures
            size == self.size_spec(),
    {
        self.size
    }

    /// Takes one event and says what to do.
    ///
    /// Signals about the attempt move the link; on becoming ready the
    /// controller announces its terminal size. A message counts only while
    /// the link is ready: shell output is rendered byte for byte, and of
    /// the status tokens only `shell_exited` has an effect, which is to end
    /// the session. Everything else changes nothing.
    pub fn step(&mut self, event: TransportEvent) -> (action: ControllerAction)
        ensures
            final(self).root_text() == old(self).root_text(),
            final(self).size_spec() == old(self).size_spec(),
            match signal_of(event) {
                Some(signal) => {
                    &&& final(self).phase_spec() == phase_after(old(self).phase_spec(), signal)
                    &&& final(self).delay() == delay_after(
                        old(self).phase_spec(),
                        old(self).delay(),
                        signal,
                    )
                    &&& match transition_of(old(self).phase_spec(), old(self).delay(), signal) {
                        Transition::Ignored => action == ControllerAction::Nothing,
                        Transition::SubscribeFirst => action == ControllerAction::Subscribe(
                            TopicKind::Output,
                        ),
                        Transition::SubscribeSecond => action == ControllerAction::Subscribe(
                            TopicKind::Status,
                        ),
                        Transition::Established => {
                            &&& action matches ControllerAction::PublishResize(payload)
                            &&& payload@ == wire_text(
                                old(self).size_spec().rows,
                                old(self).size_spec().cols,
                            )
                        },
                        Transition::Retreat { was_ready, wait_secs } => action
                            == (ControllerAction::Backoff { wait_secs }),
                        Transition::Reconnect => action == ControllerAction::Connect,
                    }
                },
                None => {
                    &&& final(self).phase_spec() == old(self).phase_spec()
                    &&& final(self).delay() == old(self).delay()
                    &&& match event {
                        TransportEvent::Message { topic, payload } => if old(self).phase_spec()
                            == LinkPhase::Ready {
                            match kind_of(old(self).root_text(), topic@) {
                                TopicKind::Output => action == ControllerAction::Render(payload),
                                TopicKind::Status => if token_of(payload@) == Some(
                                    StatusToken::ShellExited,
                                ) {
                                    action == ControllerAction::Terminate
                                } else {
                                    action == ControllerAction::Nothing
                                },
                                _ => action == ControllerAction::Nothing,
                            }
                        } else {
                            action == ControllerAction::Nothing
                        },
                        _ => action == ControllerAction::Nothing,
                    }
                },
            },
    {
        match event {
            TransportEvent::Connected => self.signal(Signal::Connected),
            TransportEvent::Subscribed => self.signal(Signal::Subscribed),
            TransportEvent::Failed => self.signal(Signal::Failed),
            TransportEvent::DelayElapsed => self.signal(Signal::DelayElapsed),
            TransportEvent::Message { topic, payload } => {
                if !self.link.is_ready() {
                    return ControllerAction::Nothing;
                }
                match self.topics.classify(topic.as_str()) {
                    TopicKind::Output => ControllerAction::Render(payload),
                    TopicKind::Status => match StatusToken::parse(payload.as_slice()) {
                        Some(StatusToken::ShellExited) => ControllerAction::Terminate,
                        _ => ControllerAction::Nothing,
                    },
                    _ => ControllerAction::Nothing,
                }
            },
            TransportEvent::ConnAck => ControllerAction::Nothing,
            TransportEvent::Other => ControllerAction::Nothing,
        }
    }

    /// Moves the link on a signal and turns the transition into an action.
    fn signal(&mut self, signal: Signal) -> (action: ControllerAction)
        ensures
            final(self).root_text() == old(self).root_text(),
            final(self).size_spec() == old(self).size_spec(),
            final(self).phase_spec() == phase_after(old(self).phase_spec(), signal),
            final(self).delay() == delay_after(old(self).phase_spec(), old(self).delay(), signal),
            match transition_of(old(self).phase_spec(), old(self).delay(), signal) {
                Transition::Ignored => action == ControllerAction::Nothing,
                Transition::SubscribeFirst => action == ControllerAction::Subscribe(
                    TopicKind::Output,
                ),
                Transition::SubscribeSecond => action == ControllerAction::Subscribe(
                    TopicKind::Status,
                ),
                Transition::Established => {
                    &&& action matches ControllerAction::PublishResize(payload)
                    &&& payload@ == wire_text(
                        old(self).size_spec().rows,
                        old(self).size_spec().cols,
                    )
                },
                Transition::Retreat { was_ready, wait_secs } => action
                    == (ControllerAction::Backoff { wait_secs }),
                Transition::Reconnect => action == ControllerAction::Connect,
            },
    {
        match self.link.on_signal(signal) {
            Transition::Ignored => ControllerAction::Nothing,
            Transition::SubscribeFirst => ControllerAction::Subscribe(TopicKind::Output),
            Transition::SubscribeSecond => ControllerAction::Subscribe(TopicKind::Status),
            Transition::Established => ControllerAction::PublishResize(self.size.encode()),
            Transition::Retreat { was_ready, wait_secs } => ControllerAction::Backoff {
                wait_secs,
            },
            Transition::Reconnect => ControllerAction::Connect,
        }
    }

    /// Takes one observation of the local terminal's size, or `None` if it
    /// could not be read. A valid size that differs from the last one is
    /// remembered, and published if the link is ready; a link that is not
    /// ready announces it when it becomes ready. An unchanged, unreadable
    /// or empty size changes nothing and publishes nothing.
    pub fn observe_size(&mut self, observed: Option<TerminalResize>) -> (action: ControllerAction)
        ensures
            final(self).root_text() == old(self).root_text(),
            final(self).phase_spec() == old(self).phase_spec(),
            final(self).delay() == old(self).delay(),
            final(self).size_spec() == if is_change(old(self).size_spec(), observed) {
                observed->0
            } else {
                old(self).size_spec()
            },
            if is_change(old(self).size_spec(), observed) && old(self).phase_spec()
                == LinkPhase::Ready {
                &&& action matches ControllerAction::PublishResize(payload)
                &&& payload@ == wire_text(observed->0.rows, observed->0.cols)
            } else {
                action == ControllerAction::Nothing
            },
    {
        match observed {
            Some(r) => {
                if r.is_valid() && (r.rows != self.size.rows || r.cols != self.size.cols) {
                    self.size = r;
                    if self.link.is_ready() {
                        ControllerAction::PublishResize(r.encode())
                    } else {
                        ControllerAction::Nothing
                    }
                } else {
                    ControllerAction::Nothing
                }
            },
            None => ControllerAction::Nothing,
        }
    }
}

} // verus!
