//! The agent's transport loop as a state machine.
//!
//! The loop connects, subscribes to the input and the resize topic, and is
//! then ready. While ready it relays input payloads to the shell and
//! applies resize messages to the session. Any failure stops the
//! forwarders, waits the back-off delay and starts over. The process that
//! owns the broker connection feeds events in and carries the actions out.

use crate::fanout::{Delivery, FanOut, Subscription, OUTPUT_CAPACITY, STATUS_CAPACITY};
use crate::json::{json_unsigned_fields, member};
use crate::link::{
    delay_after, phase_after, signal_of, transition_of, Link, LinkPhase, Signal, TransportEvent,
    Transition,
};
use crate::relay::InputRelay;
use crate::resize::{decoded, TerminalResize, DEFAULT_COLS, DEFAULT_ROWS};
use crate::session::{size_after, PtySession, SessionPhase, SETTLE_DELAY_SECS};
use crate::status::StatusToken;
use crate::topics::{kind_of, TopicKind, Topics};
use vstd::prelude::*;

verus! {

/// What the agent's loop has to do next.
#[derive(Debug, PartialEq, Eq)]
pub enum AgentAction {
    /// Nothing.
    Nothing,
    /// Set up a connection, then report `Connected` or `Failed`.
    Connect,
    /// Subscribe to the topic of this kind, then report `Subscribed` or
    /// `Failed`.
    Subscribe(TopicKind),
    /// Start forwarding the output and the status fan-out to their topics.
    StartForwarders,
    /// Put this payload into the input relay.
    ForwardInput(Vec<u8>),
    /// Give the pseudo-terminal this size.
    ApplyResize(TerminalResize),
    /// Stop the forwarders if they run, wait `wait_secs`, then report
    /// `DelayElapsed`.
    Backoff { stop_forwarders: bool, wait_secs: u64 },
}

/// The action that carries out a transition of the link.
pub open spec fn action_for(transition: Transition) -> AgentAction {
    match transition {
        Transition::Ignored => AgentAction::Nothing,
        Transition::SubscribeFirst => AgentAction::Subscribe(TopicKind::Input),
        Transition::SubscribeSecond => AgentAction::Subscribe(TopicKind::Resize),
        Transition::Established => AgentAction::StartForwarders,
        Transition::Retreat { was_ready, wait_secs } => AgentAction::Backoff {
            stop_forwarders: was_ready,
            wait_secs,
        },
        Transition::Reconnect => AgentAction::Connect,
    }
}

/// The resize request that a message makes: the decoded message if the
/// topic is the resize topic and the payload is a valid resize message.
pub open spec fn request_of(kind: TopicKind, fields: Option<Map<Seq<char>, u64>>) -> Option<
    TerminalResize,
> {
    if kind == TopicKind::Resize {
        decoded(fields)
    } else {
        None
    }
}

/// The action for a message that arrives while the link is ready.
pub open spec fn message_action(
    kind: TopicKind,
    payload: Vec<u8>,
    request: Option<TerminalResize>,
) -> AgentAction {
    match kind {
        TopicKind::Input => AgentAction::ForwardInput(payload),
        TopicKind::Resize => match request {
            Some(r) => AgentAction::ApplyResize(r),
            None => AgentAction::Nothing,
        },
        _ => AgentAction::Nothing,
    }
}

/// The agent's side of the transport: its topics and its connection state.
pub struct Agent {
    topics: Topics,
    link: Link,
}

impl Agent {
    /// The channel root of the session.
    pub closed spec fn root_text(self) -> Seq<char> {
        self.topics.root_text()
    }

    /// The phase of the connection.
    pub closed spec fn phase_spec(self) -> LinkPhase {
        self.link.phase_spec()
    }

    /// The back-off delay in seconds.
    pub closed spec fn delay(self) -> int {
        self.link.delay()
    }

    /// An agent for the session with the given channel root, about to make
    /// its first connection attempt.
    pub fn new(root: &str) -> (agent: Agent)
        ensures
            agent.root_text() == root@,
            agent.phase_spec() == LinkPhase::Connecting,
            agent.delay() == 1,
    {
        Agent { topics: Topics::new(root), link: Link::new() }
    }

    /// The topic names of the session.
    pub fn topics(&self) -> (topics: &Topics)
        ensures
            topics.root_text() == self.root_text(),
    {
        &self.topics
    }

    /// The phase of the connection.
    pub fn phase(&self) -> (phase: LinkPhase)
        ensures
            phase == self.phase_spec(),
    {
        self.link.phase()
    }

    /// The back-off delay in seconds.
    pub fn delay_secs(&self) -> (secs: u64)
        ensures
            secs == self.delay(),
    {
        self.link.delay_secs()
    }

    /// Applies a decoded resize request to the session. A valid request
    /// sets the session's size and is returned as the action for the
    /// pseudo-terminal; a rejected one changes nothing and asks for
    /// nothing, not even a status token.
    pub fn on_resize_request(session: &mut PtySession, request: Option<TerminalResize>) -> (action:
        AgentAction)
        ensures
            final(session).phase == old(session).phase,
            final(session).size() == size_after(old(session).size(), request),
            match request {
                Some(r) => if r.valid() {
                    action == AgentAction::ApplyResize(r)
                } else {
                    action == AgentAction::Nothing && *final(session) == *old(session)
                },
                None => action == AgentAction::Nothing && *final(session) == *old(session),
            },
    {
        match session.resize(request) {
            Some(r) => AgentAction::ApplyResize(r),
            None => AgentAction::Nothing,
        }
    }

    /// Takes one event and says what to do.
    ///
    /// Signals about the attempt move the link and never touch the
    /// session. A message counts only while the link is ready: on the
    /// input topic its payload is relayed as it is; on the resize topic it
    /// is decoded and, if valid, applied to the session; anything else is
    /// dropped without a trace. Acknowledgments and other notifications
    /// change nothing.
    pub fn step(&mut self, session: &mut PtySession, event: TransportEvent) -> (action: AgentAction)
        ensures
            final(self).root_text() == old(self).root_text(),
            final(session).phase == old(session).phase,
            match signal_of(event) {
                Some(signal) => {
                    &&& final(self).phase_spec() == phase_after(old(self).phase_spec(), signal)
                    &&& final(self).delay() == delay_after(
                        old(self).phase_spec(),
                        old(self).delay(),
                        signal,
                    )
                    &&& action == action_for(
                        transition_of(old(self).phase_spec(), old(self).delay(), signal),
                    )
                    &&& *final(session) == *old(session)
                },
                None => {
                    &&& final(self).phase_spec() == old(self).phase_spec()
                    &&& final(self).delay() == old(self).delay()
                    &&& match event {
                        TransportEvent::Message { topic, payload } => if old(self).phase_spec()
                            == LinkPhase::Ready {
                            let kind = kind_of(old(self).root_text(), topic@);
                            let request = request_of(kind, json_unsigned_fields(payload@));
                            &&& action == message_action(kind, payload, request)
                            &&& final(session).size() == size_after(old(session).size(), request)
                            &&& request is None ==> *final(session) == *old(session)
                        } else {
                            action == AgentAction::Nothing && *final(session) == *old(session)
                        },
                        _ => action == AgentAction::Nothing && *final(session) == *old(session),
                    }
                },
            },
    {
        match event {
            TransportEvent::Connected => self.signal(Signal::Connected),
            TransportEvent::Subscribed => self.signal(Signal::Subscribed),
            TransportEvent::Failed => self.signal(Signal::Failed),
            TransportEvent::DelayElapsed => self.signal(Signal::DelayElapsed),
            TransportEvent::Message { topic, payload } => {
                if !self.link.is_ready() {
                    return AgentAction::Nothing;
                }
                match self.topics.classify(topic.as_str()) {
                    TopicKind::Input => AgentAction::ForwardInput(payload),
                    TopicKind::Resize => {
                        let request = TerminalResize::decode(payload.as_slice());
                        Agent::on_resize_request(session, request)
                    },
                    _ => AgentAction::Nothing,
                }
            },
            TransportEvent::ConnAck => AgentAction::Nothing,
            TransportEvent::Other => AgentAction::Nothing,
        }
    }

    /// Moves the link on a signal and turns the transition into an action.
    fn signal(&mut self, signal: Signal) -> (action: AgentAction)
        ensures
            final(self).root_text() == old(self).root_text(),
            final(self).phase_spec() == phase_after(old(self).phase_spec(), signal),
            final(self).delay() == delay_after(old(self).phase_spec(), old(self).delay(), signal),
            action == action_for(transition_of(old(self).phase_spec(), old(self).delay(), signal)),
    {
        match self.link.on_signal(signal) {
            Transition::Ignored => AgentAction::Nothing,
            Transition::SubscribeFirst => AgentAction::Subscribe(TopicKind::Input),
            Transition::SubscribeSecond => AgentAction::Subscribe(TopicKind::Resize),
            Transition::Established => AgentAction::StartForwarders,
            Transition::Retreat { was_ready, wait_secs } => AgentAction::Backoff {
                stop_forwarders: was_ready,
                wait_secs,
            },
            Transition::Reconnect => AgentAction::Connect,
        }
    }
}

/// A resize message with a missing or non-positive field, or one that is
/// not JSON at all, changes nothing: the session keeps its size and the
/// agent asks for nothing, so no status token is produced either.
pub proof fn lemma_rejected_resize_changes_nothing(
    size: (u16, u16),
    payload: Vec<u8>,
    fields: Option<Map<Seq<char>, u64>>,
)
    requires
        fields matches Some(m) ==> {
            ||| member(m, "rows"@) is None
            ||| member(m, "cols"@) is None
            ||| member(m, "rows"@) == Some(0u64)
            ||| member(m, "cols"@) == Some(0u64)
        },
    ensures
        request_of(TopicKind::Resize, fields) is None,
        message_action(TopicKind::Resize, payload, request_of(TopicKind::Resize, fields))
            == AgentAction::Nothing,
        size_after(size, request_of(TopicKind::Resize, fields)) == size,
{
}

/// A resize message with positive dimensions sets the session to exactly
/// those dimensions, whatever its size was before, and asks the
/// pseudo-terminal to follow.
pub proof fn lemma_accepted_resize_sets_size(
    size: (u16, u16),
    payload: Vec<u8>,
    fields: Map<Seq<char>, u64>,
    rows: u16,
    cols: u16,
)
    requires
        rows > 0,
        cols > 0,
        member(fields, "rows"@) == Some(rows as u64),
        member(fields, "cols"@) == Some(cols as u64),
    ensures
        request_of(TopicKind::Resize, Some(fields)) == Some(TerminalResize { rows, cols }),
        message_action(TopicKind::Resize, payload, request_of(TopicKind::Resize, Some(fields)))
            == AgentAction::ApplyResize(TerminalResize { rows, cols }),
        size_after(size, request_of(TopicKind::Resize, Some(fields))) == (rows, cols),
{
}

/// What a forwarder does with what its subscription delivered.
#[derive(Debug, PartialEq, Eq)]
pub enum ForwardStep {
    /// Publish this frame on the forwarder's topic, then poll again.
    Publish(Vec<u8>),
    /// Nothing to publish yet; poll again later.
    Wait,
    /// The forwarder is done for this connection.
    Stop,
}

/// Polls a forwarder's subscription and decides its next step: a frame is
/// published, nothing is waited for, and the end of the subscription ends
/// the forwarder. A forwarder therefore publishes exactly what its
/// subscription delivers, in that order.
pub fn forward_next(fan: &FanOut, sub: &mut Subscription) -> (step: ForwardStep)
    requires
        fan.wf(),
    ensures
        final(sub).origin() == old(sub).origin(),
        final(sub).ended() == fan.finished(*old(sub)),
        match step {
            ForwardStep::Publish(frame) => {
                &&& fan.available(*old(sub))
                &&& frame@ == fan.history()[old(sub).position() as int]
                &&& final(sub).position() == old(sub).position() + 1
                &&& final(sub).delivered() == old(sub).delivered().push(frame@)
            },
            ForwardStep::Wait => {
                &&& !fan.available(*old(sub))
                &&& !fan.finished(*old(sub))
                &&& final(sub).position() == old(sub).position()
                &&& final(sub).delivered() == old(sub).delivered()
            },
            ForwardStep::Stop => {
                &&& fan.finished(*old(sub))
                &&& final(sub).position() == old(sub).position()
                &&& final(sub).delivered() == old(sub).delivered()
            },
        },
        old(sub).in_step(*fan) ==> final(sub).in_step(*fan),
{
    match fan.poll(sub) {
        Delivery::Frame(frame) => ForwardStep::Publish(frame),
        Delivery::Pending => ForwardStep::Wait,
        Delivery::Ended => ForwardStep::Stop,
    }
}

/// Takes the result of a publish. A forwarder ends at its first failed
/// publish: its subscription is cancelled, and the answer says whether it
/// goes on.
pub fn after_publish(sub: &mut Subscription, published: bool) -> (go_on: bool)
    ensures
        go_on == (published && !old(sub).ended()),
        final(sub).ended() == (old(sub).ended() || !published),
        final(sub).position() == old(sub).position(),
        final(sub).origin() == old(sub).origin(),
        final(sub).delivered() == old(sub).delivered(),
{
    if !published {
        sub.cancel();
        return false;
    }
    !sub.has_ended()
}

/// Everything that lives for one run of the shell. All of it is made anew
/// for every epoch; nothing is carried over from the epoch before.
pub struct AgentEpoch {
    /// The fan-out of shell output.
    pub output: FanOut,
    /// The fan-out of status tokens.
    pub status: FanOut,
    /// The queue of input for the shell.
    pub relay: InputRelay,
    /// The session's lifecycle and size.
    pub session: PtySession,
    /// The transport loop's state.
    pub agent: Agent,
}

impl AgentEpoch {
    /// The state of an epoch whose shell was just spawned: empty output
    /// fan-out and relay, the token `shell_ready` on the status fan-out, a
    /// running session at 24 rows by 80 columns, and a transport loop
    /// about to connect with a delay of one second.
    pub fn begin(root: &str) -> (epoch: AgentEpoch)
        ensures
            epoch.output.wf(),
            epoch.output.limit() == OUTPUT_CAPACITY,
            epoch.output.history() == Seq::<Seq<u8>>::empty(),
            !epoch.output.shut(),
            epoch.status.wf(),
            epoch.status.limit() == STATUS_CAPACITY,
            epoch.status.history() == seq![StatusToken::ShellReady.wire()],
            !epoch.status.shut(),
            epoch.relay@ == Seq::<Seq<u8>>::empty(),
            epoch.session.phase == SessionPhase::Running,
            epoch.session.size() == (DEFAULT_ROWS, DEFAULT_COLS),
            epoch.agent.root_text() == root@,
            epoch.agent.phase_spec() == LinkPhase::Connecting,
            epoch.agent.delay() == 1,
    {
        let mut status = FanOut::new(STATUS_CAPACITY);
        status.publish(StatusToken::ShellReady.to_bytes());
        let mut session = PtySession::open();
        session.started();
        let epoch = AgentEpoch {
            output: FanOut::new(OUTPUT_CAPACITY),
            status,
            relay: InputRelay::new(),
            session,
            agent: Agent::new(root),
        };
        assert(epoch.status.history() =~= seq![StatusToken::ShellReady.wire()]);
        epoch
    }
}

/// What the agent's orchestrator does when the shell process has exited:
/// abort the transport loop, whatever it is doing, wait the settle delay,
/// and begin a new epoch.
#[derive(Clone, Copy, Debug, PartialEq, Eq, Structural)]
pub struct EpochEnd {
    /// Abort the transport loop of the epoch that ended.
    pub abort_transport: bool,
    /// Seconds to wait before the next epoch begins.
    pub settle_secs: u64,
}

/// Decides how an epoch ends once the shell process has exited. The
/// transport loop is always aborted and the wait is always two seconds.
pub fn on_shell_exit() -> (end: EpochEnd)
    ensures
        end == (EpochEnd { abort_transport: true, settle_secs: SETTLE_DELAY_SECS }),
{
    EpochEnd { abort_transport: true, settle_secs: SETTLE_DELAY_SECS }
}

} // verus!
