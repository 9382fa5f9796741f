//! The session of one client connection.
//!
//! A session starts with the handshake, then reads one message after the other. A binary
//! message is decoded and handed out to be forwarded; the session reads on only after the
//! forward has been answered. Any other message is consumed. The session ends when the peer
//! goes away, the transport fails, a frame is rejected or a forward fails.
//!
//! The session performs no network operation itself. Its driver tells it what happened and
//! carries out the action the session answers with.

use crate::address::RoutingAddress;
use crate::envelope::decode_envelope;
use crate::envelope::decoded;
use crate::envelope::DecodeError;
use crate::envelope::EnvelopeModel;
use crate::fault::TransportFault;
use vstd::prelude::*;

verus! {

/// Whether the gateway asks the outbound handle to acknowledge a delivery. Clients have no say
/// in this.
pub const ACK_REQUESTED: bool = false;

/// The state of a session as its peer sees it.
#[derive(Clone, Copy, Debug, PartialEq, Eq, Structural)]
pub enum SessionState {
    Handshaking,
    Open,
    Closed,
}

/// What a session is waiting for.
#[derive(Clone, Copy, Debug, PartialEq, Eq, Structural)]
pub enum Phase {
    /// The outcome of the handshake.
    Handshaking,
    /// The next inbound message.
    Reading,
    /// The outcome of the forward it has handed out.
    Forwarding,
    /// Nothing: the session has ended.
    Closed,
}

impl Phase {
    /// The state that this phase belongs to: an open session is reading or forwarding.
    pub open spec fn state(self) -> SessionState {
        match self {
            Phase::Handshaking => SessionState::Handshaking,
            Phase::Reading => SessionState::Open,
            Phase::Forwarding => SessionState::Open,
            Phase::Closed => SessionState::Closed,
        }
    }
}

/// One message read from the peer.
#[derive(Clone, Debug, PartialEq, Eq)]
pub enum Inbound {
    Binary(Vec<u8>),
    Text(String),
    Ping(Vec<u8>),
    Pong(Vec<u8>),
    Close,
    Frame(Vec<u8>),
}

/// How a forward ended.
#[derive(Clone, Copy, Debug, PartialEq, Eq, Structural)]
pub enum ForwardOutcome {
    Delivered,
    Failed,
}

/// What the driver reports to the session.
#[derive(Clone, Debug, PartialEq, Eq)]
pub enum Event {
    HandshakeCompleted,
    HandshakeFailed(TransportFault),
    Received(Inbound),
    /// The stream of inbound messages has ended.
    StreamEnded,
    TransportFailed(TransportFault),
    ForwardFinished(ForwardOutcome),
}

/// Why a session ended.
#[derive(Clone, Copy, Debug, PartialEq, Eq, Structural)]
pub enum CloseReason {
    HandshakeFailed(TransportFault),
    PeerClosed,
    TransportFailed(TransportFault),
    FrameRejected(DecodeError),
    ForwardFailed,
    /// The driver reported something that the session was not waiting for.
    OutOfTurn,
}

impl CloseReason {
    /// An ordinary closure is not reported: the peer went away, or the transport failed in a
    /// benign way. Every other end of a session is.
    pub open spec fn reportable(self) -> bool {
        match self {
            CloseReason::HandshakeFailed(fault) => !fault.benign(),
            CloseReason::PeerClosed => false,
            CloseReason::TransportFailed(fault) => !fault.benign(),
            CloseReason::FrameRejected(_) => true,
            CloseReason::ForwardFailed => true,
            CloseReason::OutOfTurn => true,
        }
    }

    /// Whether the end of the session is to be reported as an error.
    pub fn is_reportable(&self) -> (b: bool)
        ensures
            b == self.reportable(),
    {
        match self {
            CloseReason::HandshakeFailed(fault) => !fault.is_benign(),
            CloseReason::PeerClosed => false,
            CloseReason::TransportFailed(fault) => !fault.is_benign(),
            CloseReason::FrameRejected(_) => true,
            CloseReason::ForwardFailed => true,
            CloseReason::OutOfTurn => true,
        }
    }
}

/// What a forward request holds.
pub struct ForwardRequestModel {
    pub destination: Seq<u8>,
    pub payload: Seq<u8>,
    pub ack_requested: bool,
}

/// One call of the outbound handle: send `payload` to `destination`.
#[derive(Clone, Debug, PartialEq, Eq)]
pub struct ForwardRequest {
    pub destination: RoutingAddress,
    pub payload: Vec<u8>,
    pub ack_requested: bool,
}

impl View for ForwardRequest {
    type V = ForwardRequestModel;

    open spec fn view(&self) -> ForwardRequestModel {
        ForwardRequestModel {
            destination: self.destination@,
            payload: self.payload@,
            ack_requested: self.ack_requested,
        }
    }
}

/// What an action holds.
pub enum ActionModel {
    AwaitMessage,
    Forward(ForwardRequestModel),
    Release(CloseReason),
}

/// What the driver is to do next.
#[derive(Clone, Debug, PartialEq, Eq)]
pub enum Action {
    /// Read the next inbound message and report it.
    AwaitMessage,
    /// Make this call on the outbound handle and report how it ended.
    Forward(ForwardRequest),
    /// Release the connection: the session has ended.
    Release(CloseReason),
}

impl View for Action {
    type V = ActionModel;

    open spec fn view(&self) -> ActionModel {
        match self {
            Action::AwaitMessage => ActionModel::AwaitMessage,
            Action::Forward(request) => ActionModel::Forward(request@),
            Action::Release(reason) => ActionModel::Release(*reason),
        }
    }
}

/// The forward request that an envelope gives rise to.
pub open spec fn request_for(envelope: EnvelopeModel) -> ForwardRequestModel {
    ForwardRequestModel {
        destination: envelope.address,
        payload: envelope.payload,
        ack_requested: ACK_REQUESTED,
    }
}

/// Where a session in `phase` goes on `event`, and what its driver is to do.
///
/// A handshaking session opens when the handshake completes and closes when it fails. A
/// reading session hands out a forward for a binary message that decodes and closes on one
/// that does not; it consumes every other message and reads on; it closes when the stream
/// ends or the transport fails. A forwarding session reads on when the forward was delivered
/// and closes when it failed. A closed session stays closed. Whatever else is reported to a
/// session is out of turn and closes it.
pub open spec fn transition(phase: Phase, event: Event) -> (Phase, ActionModel) {
    match phase {
        Phase::Handshaking => match event {
            Event::HandshakeCompleted => (Phase::Reading, ActionModel::AwaitMessage),
            Event::HandshakeFailed(fault) => (
                Phase::Closed,
                ActionModel::Release(CloseReason::HandshakeFailed(fault)),
            ),
            _ => (Phase::Closed, ActionModel::Release(CloseReason::OutOfTurn)),
        },
        Phase::Reading => match event {
            Event::Received(Inbound::Binary(raw)) => match decoded(raw@) {
                Ok(envelope) => (Phase::Forwarding, ActionModel::Forward(request_for(envelope))),
                Err(error) => (
                    Phase::Closed,
                    ActionModel::Release(CloseReason::FrameRejected(error)),
                ),
            },
            Event::Received(_) => (Phase::Reading, ActionModel::AwaitMessage),
            Event::StreamEnded => (Phase::Closed, ActionModel::Release(CloseReason::PeerClosed)),
            Event::TransportFailed(fault) => (
                Phase::Closed,
                ActionModel::Release(CloseReason::TransportFailed(fault)),
            ),
            _ => (Phase::Closed, ActionModel::Release(CloseReason::OutOfTurn)),
        },
        Phase::Forwarding => match event {
            Event::ForwardFinished(ForwardOutcome::Delivered) => (
                Phase::Reading,
                ActionModel::AwaitMessage,
            ),
            Event::ForwardFinished(ForwardOutcome::Failed) => (
                Phase::Closed,
                ActionModel::Release(CloseReason::ForwardFailed),
            ),
            _ => (Phase::Closed, ActionModel::Release(CloseReason::OutOfTurn)),
        },
        Phase::Closed => (Phase::Closed, ActionModel::Release(CloseReason::OutOfTurn)),
    }
}

/// Whether `event` reports a binary message.
pub open spec fn is_binary_message(event: Event) -> bool {
    event matches Event::Received(Inbound::Binary(_))
}

/// Whether `event` reports that the connection under the session is gone.
pub open spec fn connection_lost(event: Event) -> bool {
    event is StreamEnded || event is TransportFailed
}

/// A forward is handed out only for a binary message, and only by a session that is reading.
/// Whatever a message of another kind holds, a reading session consumes it and reads on.
pub proof fn lemma_only_binary_messages_are_forwarded(phase: Phase, event: Event)
    ensures
        transition(phase, event).1 is Forward ==> phase == Phase::Reading && is_binary_message(
            event,
        ),
        phase == Phase::Reading && event is Received && !is_binary_message(event) ==> transition(
            phase,
            event,
        ) == (Phase::Reading, ActionModel::AwaitMessage),
{
}

/// A binary message that decodes is forwarded as it was decoded: to the address at its head,
/// with the bytes behind the head as payload, and with the fixed acknowledgement policy.
pub proof fn lemma_decoded_frame_is_forwarded(raw: Vec<u8>)
    requires
        decoded(raw@) is Ok,
    ensures
        transition(Phase::Reading, Event::Received(Inbound::Binary(raw))) == (
            Phase::Forwarding,
            ActionModel::Forward(request_for(decoded(raw@)->Ok_0)),
        ),
{
}

/// A binary message that is rejected ends the session and is never forwarded. A reading
/// session names the rejection as the reason.
pub proof fn lemma_rejected_frame_ends_session(phase: Phase, raw: Vec<u8>)
    requires
        decoded(raw@) is Err,
    ensures
        transition(phase, Event::Received(Inbound::Binary(raw))).0 == Phase::Closed,
        transition(phase, Event::Received(Inbound::Binary(raw))).1 is Release,
        phase == Phase::Reading ==> transition(phase, Event::Received(Inbound::Binary(raw))).1
            == ActionModel::Release(CloseReason::FrameRejected(decoded(raw@)->Err_0)),
{
}

/// Losing the connection ends the session, whatever it was waiting for, and has the driver
/// release the connection.
pub proof fn lemma_lost_connection_ends_session(phase: Phase, event: Event)
    requires
        connection_lost(event),
    ensures
        transition(phase, event).0 == Phase::Closed,
        transition(phase, event).1 is Release,
{
}

/// A closed session stays closed and asks for nothing but the release of the connection.
pub proof fn lemma_closed_is_terminal(event: Event)
    ensures
        transition(Phase::Closed, event) == (
            Phase::Closed,
            ActionModel::Release(CloseReason::OutOfTurn),
        ),
{
}

/// A session is closed exactly when its last action was a release.
pub proof fn lemma_release_means_closed(phase: Phase, event: Event)
    ensures
        transition(phase, event).1 is Release <==> transition(phase, event).0 == Phase::Closed,
        transition(phase, event).1 is Forward <==> transition(phase, event).0 == Phase::Forwarding,
        transition(phase, event).1 is AwaitMessage <==> transition(phase, event).0
            == Phase::Reading,
{
}

/// The phases of all sessions of a gateway after the session at `who` has taken `event`.
pub open spec fn fleet_after(fleet: Seq<Phase>, who: int, event: Event) -> Seq<Phase> {
    fleet.update(who, transition(fleet[who], event).0)
}

/// When one session loses its connection, that session ends and every other session is where
/// it was.
pub proof fn lemma_closure_is_contained(fleet: Seq<Phase>, who: int, other: int, event: Event)
    requires
        0 <= who < fleet.len(),
        0 <= other < fleet.len(),
        other != who,
        connection_lost(event),
    ensures
        fleet_after(fleet, who, event)[who] == Phase::Closed,
        fleet_after(fleet, who, event)[other] == fleet[other],
{
}

/// The phase of a session that started in `start` and has taken `events` in this order.
pub open spec fn phase_after(start: Phase, events: Seq<Event>) -> Phase
    decreases events.len(),
{
    if events.len() == 0 {
        start
    } else {
        transition(phase_after(start, events.drop_last()), events.last()).0
    }
}

/// The action that a session which started in `start` answers to the event at `i` of `events`.
pub open spec fn action_at(start: Phase, events: Seq<Event>, i: int) -> ActionModel {
    transition(phase_after(start, events.take(i)), events[i]).1
}

/// Taking one more event moves the session by one transition.
pub proof fn lemma_phase_after_next(start: Phase, events: Seq<Event>, i: int)
    requires
        0 <= i < events.len(),
    ensures
        phase_after(start, events.take(i + 1)) == transition(
            phase_after(start, events.take(i)),
            events[i],
        ).0,
{
    let longer = events.take(i + 1);
    assert(longer.drop_last() =~= events.take(i));
    assert(longer.last() == events[i]);
}

/// Once a session has closed, no later event opens it again.
pub proof fn lemma_closed_stays_closed(start: Phase, events: Seq<Event>, i: int, j: int)
    requires
        0 <= i <= j <= events.len(),
        phase_after(start, events.take(i)) == Phase::Closed,
    ensures
        phase_after(start, events.take(j)) == Phase::Closed,
    decreases j - i,
{
    if i < j {
        lemma_closed_stays_closed(start, events, i, j - 1);
        lemma_phase_after_next(start, events, j - 1);
    }
}

/// Frames are forwarded in the order of their arrival: each forward answers the binary message
/// that was reported at that very moment, and carries what that message decodes to.
pub proof fn lemma_forwards_follow_arrival(start: Phase, events: Seq<Event>, i: int)
    requires
        0 <= i < events.len(),
        action_at(start, events, i) is Forward,
    ensures
        events[i] matches Event::Received(Inbound::Binary(raw)) && decoded(raw@) is Ok
            && action_at(start, events, i) == ActionModel::Forward(
            request_for(decoded(raw@)->Ok_0),
        ),
{
}

/// A session never has two forwards in flight: between any two forwards that it hands out,
/// the first one has been reported as delivered.
pub proof fn lemma_forwards_do_not_overlap(start: Phase, events: Seq<Event>, i: int, j: int)
    requires
        0 <= i < j < events.len(),
        action_at(start, events, i) is Forward,
        action_at(start, events, j) is Forward,
    ensures
        i + 1 < j,
        events[i + 1] == Event::ForwardFinished(ForwardOutcome::Delivered),
{
    // The first forward leaves the session forwarding, so the very next action is no forward.
    lemma_phase_after_next(start, events, i);
    if i + 1 < j {
        // Any report but a delivery closes the session for good.
        lemma_phase_after_next(start, events, i + 1);
        if phase_after(start, events.take(i + 2)) == Phase::Closed {
            lemma_closed_stays_closed(start, events, i + 2, j);
        }
    }
}

/// The state machine of one client connection.
#[derive(Debug, PartialEq, Eq)]
pub struct Session {
    phase: Phase,
}

impl Session {
    /// What the session is waiting for.
    pub closed spec fn phase(&self) -> Phase {
        self.phase
    }

    /// A session for a connection that has just been accepted.
    pub fn new() -> (session: Session)
        ensures
            session.phase() == Phase::Handshaking,
    {
        Session { phase: Phase::Handshaking }
    }

    /// What the session is waiting for.
    pub fn current_phase(&self) -> (phase: Phase)
        ensures
            phase == self.phase(),
    {
        self.phase
    }

    /// The state of the session.
    pub fn state(&self) -> (state: SessionState)
        ensures
            state == self.phase().state(),
    {
        match self.phase {
            Phase::Handshaking => SessionState::Handshaking,
            Phase::Reading => SessionState::Open,
            Phase::Forwarding => SessionState::Open,
            Phase::Closed => SessionState::Closed,
        }
    }

    /// Takes what the driver reports and answers with what the driver is to do next.
    pub fn step(&mut self, event: Event) -> (action: Action)
        ensures
            (final(self).phase(), action@) == transition(old(self).phase(), event),
            action matches Action::Forward(request) ==> request.destination.wf(),
    {
        let (next, action) = match self.phase {
            Phase::Handshaking => match event {
                Event::HandshakeCompleted => (Phase::Reading, Action::AwaitMessage),
                Event::HandshakeFailed(fault) => (
                    Phase::Closed,
                    Action::Release(CloseReason::HandshakeFailed(fault)),
                ),
                _ => (Phase::Closed, Action::Release(CloseReason::OutOfTurn)),
            },
            Phase::Reading => match event {
                Event::Received(Inbound::Binary(raw)) => match decode_envelope(raw) {
                    Ok(envelope) => (
                        Phase::Forwarding,
                        Action::Forward(
                            ForwardRequest {
                                destination: envelope.address,
                                payload: envelope.payload,
                                ack_requested: ACK_REQUESTED,
                            },
                        ),
                    ),
                    Err(error) => (
                        Phase::Closed,
                        Action::Release(CloseReason::FrameRejected(error)),
                    ),
                },
                Event::Received(_) => (Phase::Reading, Action::AwaitMessage),
                Event::StreamEnded => (Phase::Closed, Action::Release(CloseReason::PeerClosed)),
                Event::TransportFailed(fault) => (
                    Phase::Closed,
                    Action::Release(CloseReason::TransportFailed(fault)),
                ),
                _ => (Phase::Closed, Action::Release(CloseReason::OutOfTurn)),
            },
            Phase::Forwarding => match event {
                Event::ForwardFinished(ForwardOutcome::Delivered) => (
                    Phase::Reading,
                    Action::AwaitMessage,
                ),
                Event::ForwardFinished(ForwardOutcome::Failed) => (
                    Phase::Closed,
                    Action::Release(CloseReason::ForwardFailed),
                ),
                _ => (Phase::Closed, Action::Release(CloseReason::OutOfTurn)),
            },
            Phase::Closed => (Phase::Closed, Action::Release(CloseReason::OutOfTurn)),
        };
        self.phase = next;
        action
    }
}

} // verus!
