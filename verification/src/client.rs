//! The interactive client: the mirror of a session on the peer's side.
//!
//! Its two sources are the lines typed by the user and the frames from the
//! one connection to the service. There is no hub: what is typed goes to the
//! service, what the service sends is shown.

use vstd::prelude::*;
use crate::command::{asks_to_leave, is_exit_command};
use crate::frame::{Frame, FrameView};

verus! {

/// Where the client stands.
#[derive(Clone, Copy, Debug, PartialEq, Eq, Structural)]
pub enum ClientPhase {
    /// Connected and running; the state in which a client starts.
    Active,
    /// Done. Nothing leads out of this state.
    Closed,
}

/// Why the client left its loop without being told to.
#[derive(Clone, Copy, Debug, PartialEq, Eq, Structural)]
pub enum LeaveReason {
    /// The service sent a close frame.
    RemoteClosed,
    /// Receiving from the service failed.
    ReceiveFailed,
    /// Sending to the service failed.
    SendFailed,
    /// Neither the user nor the service can say anything more.
    Exhausted,
}

/// What can happen to the client.
#[derive(Clone, Debug, PartialEq, Eq)]
pub enum ClientEvent {
    /// The user typed a line.
    Line(String),
    /// The user's input ended or could not be read.
    InputEnded,
    /// A frame arrived from the service.
    Inbound(Frame),
    /// Receiving from the service failed.
    InboundFailed,
    /// The service's sequence of frames ended without a close frame.
    InboundEnded,
    /// A line could not be sent to the service.
    SendFailed,
}

/// The mathematical value of a [`ClientEvent`].
pub enum ClientEventView {
    Line(Seq<char>),
    InputEnded,
    Inbound(FrameView),
    InboundFailed,
    InboundEnded,
    SendFailed,
}

impl View for ClientEvent {
    type V = ClientEventView;

    open spec fn view(&self) -> ClientEventView {
        match self {
            ClientEvent::Line(line) => ClientEventView::Line(line@),
            ClientEvent::InputEnded => ClientEventView::InputEnded,
            ClientEvent::Inbound(frame) => ClientEventView::Inbound(frame@),
            ClientEvent::InboundFailed => ClientEventView::InboundFailed,
            ClientEvent::InboundEnded => ClientEventView::InboundEnded,
            ClientEvent::SendFailed => ClientEventView::SendFailed,
        }
    }
}

/// What the client asks for in answer to an event.
#[derive(Clone, Debug, PartialEq, Eq)]
pub enum ClientAction {
    /// Nothing: go on as the phase says.
    Idle,
    /// Send this line to the service as a text frame.
    Send(String),
    /// Show this text, which the service sent, to the user.
    Show(String),
    /// Send a close frame and leave the loop, whether or not sending worked.
    Farewell,
    /// Leave the loop.
    Leave(LeaveReason),
}

/// The mathematical value of a [`ClientAction`].
pub enum ClientActionView {
    Idle,
    Send(Seq<char>),
    Show(Seq<char>),
    Farewell,
    Leave(LeaveReason),
}

impl View for ClientAction {
    type V = ClientActionView;

    open spec fn view(&self) -> ClientActionView {
        match self {
            ClientAction::Idle => ClientActionView::Idle,
            ClientAction::Send(line) => ClientActionView::Send(line@),
            ClientAction::Show(text) => ClientActionView::Show(text@),
            ClientAction::Farewell => ClientActionView::Farewell,
            ClientAction::Leave(reason) => ClientActionView::Leave(*reason),
        }
    }
}

/// The mathematical value of a [`Client`].
pub struct ClientView {
    /// Where the client stands.
    pub phase: ClientPhase,
    /// Whether the user's input can still yield a line.
    pub input_open: bool,
    /// Whether the service's sequence of frames can still yield a frame.
    pub remote_open: bool,
}

/// The client as it starts.
pub open spec fn connected() -> ClientView {
    ClientView { phase: ClientPhase::Active, input_open: true, remote_open: true }
}

/// The client `c` at its end.
pub open spec fn closed(c: ClientView) -> ClientView {
    ClientView { phase: ClientPhase::Closed, ..c }
}

/// The transition function of the client: the state after `event` and the
/// action it asks for.
///
/// A line that asks to leave ends the client with a close frame; every other
/// line is sent as it was typed, an empty one too. A text from the service is
/// shown; a close frame from it, and any failure to send or to receive, ends
/// the client. A source that ends is no longer waited for, and when both
/// have ended the client leaves.
pub open spec fn client_step(c: ClientView, event: ClientEventView) -> (ClientView, ClientActionView) {
    match c.phase {
        ClientPhase::Closed => (c, ClientActionView::Idle),
        ClientPhase::Active => match event {
            ClientEventView::Line(line) => if asks_to_leave(line) {
                (closed(c), ClientActionView::Farewell)
            } else {
                (c, ClientActionView::Send(line))
            },
            ClientEventView::InputEnded => if c.remote_open {
                (ClientView { input_open: false, ..c }, ClientActionView::Idle)
            } else {
                (
                    closed(ClientView { input_open: false, ..c }),
                    ClientActionView::Leave(LeaveReason::Exhausted),
                )
            },
            ClientEventView::Inbound(FrameView::Text(text)) => (c, ClientActionView::Show(text)),
            ClientEventView::Inbound(FrameView::Close) => (
                closed(c),
                ClientActionView::Leave(LeaveReason::RemoteClosed),
            ),
            ClientEventView::Inbound(FrameView::Binary) => (c, ClientActionView::Idle),
            ClientEventView::Inbound(FrameView::Control) => (c, ClientActionView::Idle),
            ClientEventView::InboundFailed => (
                closed(c),
                ClientActionView::Leave(LeaveReason::ReceiveFailed),
            ),
            ClientEventView::InboundEnded => if c.input_open {
                (ClientView { remote_open: false, ..c }, ClientActionView::Idle)
            } else {
                (
                    closed(ClientView { remote_open: false, ..c }),
                    ClientActionView::Leave(LeaveReason::Exhausted),
                )
            },
            ClientEventView::SendFailed => (
                closed(c),
                ClientActionView::Leave(LeaveReason::SendFailed),
            ),
        },
    }
}

/// The control state of the interactive client.
#[derive(Debug)]
pub struct Client {
    phase: ClientPhase,
    input_open: bool,
    remote_open: bool,
}

impl View for Client {
    type V = ClientView;

    closed spec fn view(&self) -> ClientView {
        ClientView {
            phase: self.phase,
            input_open: self.input_open,
            remote_open: self.remote_open,
        }
    }
}

impl Client {
    /// The client of a connection that was just made.
    pub fn new() -> (client: Client)
        ensures
            client@ == connected(),
    {
        Client { phase: ClientPhase::Active, input_open: true, remote_open: true }
    }

    /// Where the client stands.
    pub fn phase(&self) -> (phase: ClientPhase)
        ensures
            phase == self@.phase,
    {
        self.phase
    }

    /// Whether the program should wait for a line from the user.
    pub fn expects_input(&self) -> (expects: bool)
        ensures
            expects == (self@.phase == ClientPhase::Active && self@.input_open),
    {
        match self.phase {
            ClientPhase::Active => self.input_open,
            ClientPhase::Closed => false,
        }
    }

    /// Whether the program should wait for a frame from the service.
    pub fn expects_frames(&self) -> (expects: bool)
        ensures
            expects == (self@.phase == ClientPhase::Active && self@.remote_open),
    {
        match self.phase {
            ClientPhase::Active => self.remote_open,
            ClientPhase::Closed => false,
        }
    }

    /// Takes one event and says what to do about it, as [`client_step`]
    /// defines.
    pub fn react(&mut self, event: ClientEvent) -> (action: ClientAction)
        ensures
            final(self)@ == client_step(old(self)@, event@).0,
            action@ == client_step(old(self)@, event@).1,
    {
        match self.phase {
            ClientPhase::Closed => ClientAction::Idle,
            ClientPhase::Active => match event {
                ClientEvent::Line(line) => {
                    if is_exit_command(line.as_str()) {
                        self.phase = ClientPhase::Closed;
                        ClientAction::Farewell
                    } else {
                        ClientAction::Send(line)
                    }
                },
                ClientEvent::InputEnded => {
                    self.input_open = false;
                    if self.remote_open {
                        ClientAction::Idle
                    } else {
                        self.phase = ClientPhase::Closed;
                        ClientAction::Leave(LeaveReason::Exhausted)
                    }
                },
                ClientEvent::Inbound(Frame::Text(text)) => ClientAction::Show(text),
                ClientEvent::Inbound(Frame::Close) => {
                    self.phase = ClientPhase::Closed;
                    ClientAction::Leave(LeaveReason::RemoteClosed)
                },
                ClientEvent::Inbound(Frame::Binary) => ClientAction::Idle,
                ClientEvent::Inbound(Frame::Control) => ClientAction::Idle,
                ClientEvent::InboundFailed => {
                    self.phase = ClientPhase::Closed;
                    ClientAction::Leave(LeaveReason::ReceiveFailed)
                },
                ClientEvent::InboundEnded => {
                    self.remote_open = false;
                    if self.input_open {
                        ClientAction::Idle
                    } else {
                        self.phase = ClientPhase::Closed;
                        ClientAction::Leave(LeaveReason::Exhausted)
                    }
                },
                ClientEvent::SendFailed => {
                    self.phase = ClientPhase::Closed;
                    ClientAction::Leave(LeaveReason::SendFailed)
                },
            },
        }
    }
}

/// The client leaves its loop exactly when it is told to, when the service
/// closes, when sending or receiving fails, and when the last of its two
/// sources ends. It never sends anything after that.
pub proof fn lemma_client_leaves(c: ClientView, event: ClientEventView)
    requires
        c.phase == ClientPhase::Active,
    ensures
        client_step(c, event).0.phase == ClientPhase::Closed <==> (client_step(c, event).1 is Farewell
            || client_step(c, event).1 is Leave),
        client_step(c, event).1 is Farewell <==> (event matches ClientEventView::Line(line)
            && asks_to_leave(line)),
        client_step(closed(c), event) == (closed(c), ClientActionView::Idle),
{
}

} // verus!
