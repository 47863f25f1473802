//! The connection session: what the service does, for one connected peer,
//! with each frame from the peer and each line from the hub.
//!
//! A session is a state machine. The program around it waits for whichever of
//! the two sources is ready first, hands the session one event, carries out
//! the reaction, and comes back with the next event.

use vstd::prelude::*;
use crate::frame::{Frame, FrameView};
use crate::hub::{source_of, Hub, NoSubscribers};
use crate::message::{rendered_line, BroadcastMessage, BroadcastMessageView};
use tokio::sync::broadcast::Receiver;

verus! {

/// Where a session stands in its life.
#[derive(Clone, Copy, Debug, PartialEq, Eq, Structural)]
pub enum Phase {
    /// Serving its peer; the state in which a session starts.
    Active,
    /// On its way out: the transport is being released.
    Closing,
    /// Ended; the transport is released. Nothing leads out of this state.
    Closed,
}

/// Why a session left the active phase.
#[derive(Clone, Copy, Debug, PartialEq, Eq, Structural)]
pub enum CloseReason {
    /// The peer sent a close frame.
    PeerClosed,
    /// Receiving from the peer failed.
    ReceiveFailed,
    /// Sending to the peer failed.
    SendFailed,
    /// The hub closed the subscription.
    HubClosed,
}

/// What can happen to a session.
#[derive(Clone, Debug, PartialEq, Eq)]
pub enum SessionEvent {
    /// A frame arrived from the peer.
    Inbound(Frame),
    /// Receiving from the peer failed.
    InboundFailed,
    /// The peer's sequence of frames ended without a close frame.
    InboundEnded,
    /// The subscription delivered a line.
    Delivered(String),
    /// The subscription skipped this many lines: the session was too slow.
    Missed(u64),
    /// The subscription will deliver nothing more.
    HubClosed,
    /// A line could not be sent to the peer.
    SendFailed,
    /// The transport has been released.
    Released,
}

/// The mathematical value of a [`SessionEvent`].
pub enum SessionEventView {
    Inbound(FrameView),
    InboundFailed,
    InboundEnded,
    Delivered(Seq<char>),
    Missed(u64),
    HubClosed,
    SendFailed,
    Released,
}

impl View for SessionEvent {
    type V = SessionEventView;

    open spec fn view(&self) -> SessionEventView {
        match self {
            SessionEvent::Inbound(frame) => SessionEventView::Inbound(frame@),
            SessionEvent::InboundFailed => SessionEventView::InboundFailed,
            SessionEvent::InboundEnded => SessionEventView::InboundEnded,
            SessionEvent::Delivered(line) => SessionEventView::Delivered(line@),
            SessionEvent::Missed(count) => SessionEventView::Missed(*count),
            SessionEvent::HubClosed => SessionEventView::HubClosed,
            SessionEvent::SendFailed => SessionEventView::SendFailed,
            SessionEvent::Released => SessionEventView::Released,
        }
    }
}

/// What a session asks for in answer to an event.
#[derive(Debug, PartialEq, Eq)]
pub enum Reaction {
    /// Nothing: go on as the phase says.
    Idle,
    /// Publish this message to the hub.
    Publish(BroadcastMessage),
    /// Send this line to the peer as a text frame.
    Forward(String),
    /// Report that this many lines were missed.
    ReportMissed(u64),
    /// Leave the loop, report the end of the connection and release the
    /// transport.
    Release(CloseReason),
}

/// The mathematical value of a [`Reaction`].
pub enum ReactionView {
    Idle,
    Publish(BroadcastMessageView),
    Forward(Seq<char>),
    ReportMissed(u64),
    Release(CloseReason),
}

impl View for Reaction {
    type V = ReactionView;

    open spec fn view(&self) -> ReactionView {
        match self {
            Reaction::Idle => ReactionView::Idle,
            Reaction::Publish(message) => ReactionView::Publish(message@),
            Reaction::Forward(line) => ReactionView::Forward(line@),
            Reaction::ReportMissed(count) => ReactionView::ReportMissed(*count),
            Reaction::Release(reason) => ReactionView::Release(*reason),
        }
    }
}

/// The mathematical value of a [`Session`].
pub struct SessionView {
    /// The identifier of the peer's endpoint.
    pub origin: Seq<char>,
    /// Where the session stands.
    pub phase: Phase,
    /// Whether the peer's sequence of frames can still yield a frame.
    pub peer_open: bool,
}

/// The session as it starts for the peer at `origin`.
pub open spec fn opened(origin: Seq<char>) -> SessionView {
    SessionView { origin, phase: Phase::Active, peer_open: true }
}

/// The session `s` moved to the closing phase.
pub open spec fn closing(s: SessionView) -> SessionView {
    SessionView { phase: Phase::Closing, ..s }
}

/// What an active session does with a frame from its peer.
///
/// A non-empty text becomes a message under the session's own origin. An
/// empty text, a binary frame and a control frame are accepted and ignored. A
/// close frame ends the session.
pub open spec fn on_frame(s: SessionView, frame: FrameView) -> (SessionView, ReactionView) {
    match frame {
        FrameView::Text(text) => if text.len() > 0 {
            (s, ReactionView::Publish(BroadcastMessageView { origin: s.origin, text }))
        } else {
            (s, ReactionView::Idle)
        },
        FrameView::Close => (closing(s), ReactionView::Release(CloseReason::PeerClosed)),
        FrameView::Binary => (s, ReactionView::Idle),
        FrameView::Control => (s, ReactionView::Idle),
    }
}

/// The transition function of a session: the state after `event` and the
/// reaction to it.
///
/// While active, a session publishes what its peer says, forwards every line
/// that the hub delivers, whoever sent it, and starts closing on a close
/// frame, on a failure to receive or to send, and when the hub closes. Lines
/// that it missed are reported and change nothing. When the peer's frames end
/// without a close frame the session stays subscribed and only stops
/// expecting frames. Once closing, it waits for the release of the transport
/// and is then closed for good.
pub open spec fn step(s: SessionView, event: SessionEventView) -> (SessionView, ReactionView) {
    match s.phase {
        Phase::Active => match event {
            SessionEventView::Inbound(frame) => on_frame(s, frame),
            SessionEventView::InboundFailed => (
                closing(s),
                ReactionView::Release(CloseReason::ReceiveFailed),
            ),
            SessionEventView::InboundEnded => (
                SessionView { peer_open: false, ..s },
                ReactionView::Idle,
            ),
            SessionEventView::Delivered(line) => (s, ReactionView::Forward(line)),
            SessionEventView::Missed(count) => (s, ReactionView::ReportMissed(count)),
            SessionEventView::HubClosed => (
                closing(s),
                ReactionView::Release(CloseReason::HubClosed),
            ),
            SessionEventView::SendFailed => (
                closing(s),
                ReactionView::Release(CloseReason::SendFailed),
            ),
            SessionEventView::Released => (s, ReactionView::Idle),
        },
        Phase::Closing => match event {
            SessionEventView::Released => (
                SessionView { phase: Phase::Closed, ..s },
                ReactionView::Idle,
            ),
            _ => (s, ReactionView::Idle),
        },
        Phase::Closed => (s, ReactionView::Idle),
    }
}

/// The per-connection control state of the service.
#[derive(Debug)]
pub struct Session {
    origin: String,
    phase: Phase,
    peer_open: bool,
}

impl View for Session {
    type V = SessionView;

    closed spec fn view(&self) -> SessionView {
        SessionView { origin: self.origin@, phase: self.phase, peer_open: self.peer_open }
    }
}

/// What came of handling one event: the reaction that the session decided on
/// and, where that was a publication, the hub's answer to it.
#[derive(Debug, PartialEq, Eq)]
pub struct Handled {
    /// The reaction to the event.
    pub reaction: Reaction,
    /// The hub's answer, present exactly where the reaction is a publication.
    pub publication: Option<Result<usize, NoSubscribers>>,
}

impl Session {
    /// Starts the session for the peer at `origin`: subscribes it to `hub`
    /// and returns it, active, with its one subscription.
    pub fn open(origin: String, hub: &Hub) -> (opened: (Session, Receiver<String>))
        ensures
            opened.0@ == self::opened(origin@),
            source_of(opened.1) == hub.channel(),
    {
        let subscription = hub.subscribe();
        (Session { origin, phase: Phase::Active, peer_open: true }, subscription)
    }

    /// The identifier of the peer's endpoint.
    pub fn origin(&self) -> (origin: &str)
        ensures
            origin@ == self@.origin,
    {
        self.origin.as_str()
    }

    /// Where the session stands.
    pub fn phase(&self) -> (phase: Phase)
        ensures
            phase == self@.phase,
    {
        self.phase
    }

    /// Whether the program should wait for a frame from the peer: the session
    /// is active and the peer's sequence of frames has not ended.
    pub fn expects_frames(&self) -> (expects: bool)
        ensures
            expects == (self@.phase == Phase::Active && self@.peer_open),
    {
        match self.phase {
            Phase::Active => self.peer_open,
            _ => false,
        }
    }

    /// Takes one event and says what to do about it, as [`step`] defines.
    pub fn react(&mut self, event: SessionEvent) -> (reaction: Reaction)
        ensures
            final(self)@ == step(old(self)@, event@).0,
            reaction@ == step(old(self)@, event@).1,
    {
        match self.phase {
            Phase::Active => match event {
                SessionEvent::Inbound(Frame::Text(text)) => {
                    match BroadcastMessage::new(self.origin.clone(), text) {
                        Some(message) => Reaction::Publish(message),
                        None => Reaction::Idle,
                    }
                },
                SessionEvent::Inbound(Frame::Close) => {
                    self.phase = Phase::Closing;
                    Reaction::Release(CloseReason::PeerClosed)
                },
                SessionEvent::Inbound(Frame::Binary) => Reaction::Idle,
                SessionEvent::Inbound(Frame::Control) => Reaction::Idle,
                SessionEvent::InboundFailed => {
                    self.phase = Phase::Closing;
                    Reaction::Release(CloseReason::ReceiveFailed)
                },
                SessionEvent::InboundEnded => {
                    self.peer_open = false;
                    Reaction::Idle
                },
                SessionEvent::Delivered(line) => Reaction::Forward(line),
                SessionEvent::Missed(count) => Reaction::ReportMissed(count),
                SessionEvent::HubClosed => {
                    self.phase = Phase::Closing;
                    Reaction::Release(CloseReason::HubClosed)
                },
                SessionEvent::SendFailed => {
                    self.phase = Phase::Closing;
                    Reaction::Release(CloseReason::SendFailed)
                },
                SessionEvent::Released => Reaction::Idle,
            },
            Phase::Closing => match event {
                SessionEvent::Released => {
                    self.phase = Phase::Closed;
                    Reaction::Idle
                },
                _ => Reaction::Idle,
            },
            Phase::Closed => Reaction::Idle,
        }
    }

    /// Takes one event, decides as [`Session::react`] does, and where the
    /// decision is a publication hands the message to `hub`.
    ///
    /// The hub's answer depends on who else is subscribed at that moment; it
    /// never changes the session's state, and a publication that nobody could
    /// observe is no failure of the session.
    pub fn handle(&mut self, hub: &Hub, event: SessionEvent) -> (handled: Handled)
        ensures
            final(self)@ == step(old(self)@, event@).0,
            handled.reaction@ == step(old(self)@, event@).1,
            handled.publication.is_some() == (handled.reaction@ is Publish),
            handled.publication matches Some(Ok(n)) ==> n >= 1,
    {
        let reaction = self.react(event);
        let publication = match &reaction {
            Reaction::Publish(message) => Some(hub.publish(message)),
            _ => None,
        };
        Handled { reaction, publication }
    }
}

/// A session publishes exactly when it is active and its peer sent a text
/// that is not empty. The message then carries the session's own origin and
/// the text as it came, and the session stays as it was.
pub proof fn lemma_publishes_only_text(s: SessionView, event: SessionEventView)
    ensures
        step(s, event).1 is Publish <==> s.phase == Phase::Active && (event matches SessionEventView::Inbound(
            FrameView::Text(text),
        ) && text.len() > 0),
        step(s, event).1 matches ReactionView::Publish(message) ==> {
            &&& message.origin == s.origin
            &&& message.text.len() > 0
            &&& event == SessionEventView::Inbound(FrameView::Text(message.text))
            &&& step(s, event).0 == s
        },
{
}

/// An empty text from the peer is never published, whatever state the
/// session is in, and leaves the session as it was.
pub proof fn lemma_empty_text_is_ignored(s: SessionView)
    ensures
        step(s, SessionEventView::Inbound(FrameView::Text(Seq::empty()))) == (s, ReactionView::Idle),
{
}

/// Every active session forwards a delivered line to its own peer: one
/// reaction, with the line as it was delivered, and the session stays as it
/// was. The session does not look at who sent the line, so this holds of the
/// line that it published itself as of any other.
pub proof fn lemma_delivery_is_forwarded(
    publisher: SessionView,
    text: Seq<char>,
    subscriber: SessionView,
)
    requires
        publisher.phase == Phase::Active,
        subscriber.phase == Phase::Active,
        text.len() > 0,
    ensures
        step(publisher, SessionEventView::Inbound(FrameView::Text(text))).1 matches ReactionView::Publish(
            message,
        ) && {
            &&& message.line() == rendered_line(publisher.origin, text)
            &&& step(subscriber, SessionEventView::Delivered(message.line())) == (
                subscriber,
                ReactionView::Forward(message.line()),
            )
            &&& step(publisher, SessionEventView::Delivered(message.line())) == (
                publisher,
                ReactionView::Forward(message.line()),
            )
        },
{
}

/// A session leaves the active phase on exactly four events: a close frame,
/// a failure to receive, a failure to send, and the closing of the hub. It is
/// then closing, and the reaction asks for the release of the transport.
pub proof fn lemma_closing_triggers(s: SessionView, event: SessionEventView)
    requires
        s.phase == Phase::Active,
    ensures
        step(s, event).0.phase != Phase::Active <==> (event == SessionEventView::Inbound(
            FrameView::Close,
        ) || event == SessionEventView::InboundFailed || event == SessionEventView::SendFailed
            || event == SessionEventView::HubClosed),
        step(s, event).0.phase != Phase::Active ==> step(s, event).0 == closing(s) && step(
            s,
            event,
        ).1 is Release,
        step(s, event).0.phase != Phase::Closed,
{
}

/// A session only moves forward: from active to closing to closed, one phase
/// at a time, never back. Its origin never changes, and once its peer's
/// frames have ended they stay ended.
pub proof fn lemma_session_moves_forward(s: SessionView, event: SessionEventView)
    ensures
        step(s, event).0.origin == s.origin,
        !s.peer_open ==> !step(s, event).0.peer_open,
        match s.phase {
            Phase::Active => step(s, event).0.phase != Phase::Closed,
            Phase::Closing => step(s, event).0.phase != Phase::Active,
            Phase::Closed => step(s, event).0.phase == Phase::Closed,
        },
{
}

/// A closed session stays closed and asks for nothing more.
pub proof fn lemma_closed_is_terminal(s: SessionView, event: SessionEventView)
    requires
        s.phase == Phase::Closed,
    ensures
        step(s, event) == (s, ReactionView::Idle),
{
}

} // verus!
