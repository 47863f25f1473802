//! The acceptor: what the service does with each connection that arrives.
//!
//! It binds once, then accepts one connection after another. Each of them
//! gets its handshake, and a session of its own when the handshake went well.
//! An attempt that fails is reported and dropped; the acceptor goes on.

use vstd::prelude::*;

verus! {

/// Where the acceptor stands.
#[derive(Clone, Copy, Debug, PartialEq, Eq, Structural)]
pub enum AcceptorPhase {
    /// Not yet listening: the endpoint is being bound.
    Starting,
    /// Listening, and ready for the next connection.
    Accepting,
    /// The endpoint could not be bound. Nothing leads out of this state.
    Aborted,
}

/// What can happen to the acceptor.
#[derive(Clone, Copy, Debug, PartialEq, Eq, Structural)]
pub enum AcceptorEvent {
    /// The listening endpoint is bound.
    Bound,
    /// The listening endpoint could not be bound.
    BindFailed,
    /// A connection arrived.
    Connected,
    /// Waiting for a connection failed.
    AcceptFailed,
    /// The handshake with a connection succeeded.
    HandshakeSucceeded,
    /// The handshake with a connection failed.
    HandshakeFailed,
}

/// What the acceptor asks for in answer to an event.
#[derive(Clone, Copy, Debug, PartialEq, Eq, Structural)]
pub enum AcceptorAction {
    /// Nothing: go on as the phase says.
    Continue,
    /// Start the handshake with the connection that arrived, without waiting
    /// for it to end.
    Handshake,
    /// Start a session of its own for the connection, with a handle to the
    /// hub, and do not wait for it.
    Serve,
    /// Report the failure and drop this one attempt.
    Discard,
    /// Give up: end the process.
    Abort,
}

/// The transition function of the acceptor: the phase after `event` and the
/// action it asks for.
///
/// Only a failure to bind is fatal. Once the acceptor accepts, it accepts for
/// good: no connection, handshake or failure of either leads out of that
/// phase.
pub open spec fn accept_step(phase: AcceptorPhase, event: AcceptorEvent) -> (
    AcceptorPhase,
    AcceptorAction,
) {
    match phase {
        AcceptorPhase::Starting => match event {
            AcceptorEvent::Bound => (AcceptorPhase::Accepting, AcceptorAction::Continue),
            AcceptorEvent::BindFailed => (AcceptorPhase::Aborted, AcceptorAction::Abort),
            _ => (AcceptorPhase::Starting, AcceptorAction::Continue),
        },
        AcceptorPhase::Accepting => match event {
            AcceptorEvent::Connected => (AcceptorPhase::Accepting, AcceptorAction::Handshake),
            AcceptorEvent::HandshakeSucceeded => (AcceptorPhase::Accepting, AcceptorAction::Serve),
            AcceptorEvent::HandshakeFailed => (AcceptorPhase::Accepting, AcceptorAction::Discard),
            AcceptorEvent::AcceptFailed => (AcceptorPhase::Accepting, AcceptorAction::Discard),
            AcceptorEvent::Bound => (AcceptorPhase::Accepting, AcceptorAction::Continue),
            AcceptorEvent::BindFailed => (AcceptorPhase::Accepting, AcceptorAction::Continue),
        },
        AcceptorPhase::Aborted => (AcceptorPhase::Aborted, AcceptorAction::Abort),
    }
}

/// The phase of an acceptor that started in `phase` and took `events` in
/// order.
pub open spec fn phase_after(phase: AcceptorPhase, events: Seq<AcceptorEvent>) -> AcceptorPhase
    decreases events.len(),
{
    if events.len() == 0 {
        phase
    } else {
        accept_step(phase_after(phase, events.drop_last()), events.last()).0
    }
}

/// The control state of the listener.
#[derive(Clone, Copy, Debug, PartialEq, Eq, Structural)]
pub struct Acceptor {
    phase: AcceptorPhase,
}

impl View for Acceptor {
    type V = AcceptorPhase;

    closed spec fn view(&self) -> AcceptorPhase {
        self.phase
    }
}

impl Acceptor {
    /// An acceptor that has not bound its endpoint yet.
    pub fn new() -> (acceptor: Acceptor)
        ensures
            acceptor@ == AcceptorPhase::Starting,
    {
        Acceptor { phase: AcceptorPhase::Starting }
    }

    /// Where the acceptor stands.
    pub fn phase(&self) -> (phase: AcceptorPhase)
        ensures
            phase == self@,
    {
        self.phase
    }

    /// Takes one event and says what to do about it, as [`accept_step`]
    /// defines.
    pub fn react(&mut self, event: AcceptorEvent) -> (action: AcceptorAction)
        ensures
            final(self)@ == accept_step(old(self)@, event).0,
            action == accept_step(old(self)@, event).1,
    {
        match self.phase {
            AcceptorPhase::Starting => match event {
                AcceptorEvent::Bound => {
                    self.phase = AcceptorPhase::Accepting;
                    AcceptorAction::Continue
                },
                AcceptorEvent::BindFailed => {
                    self.phase = AcceptorPhase::Aborted;
                    AcceptorAction::Abort
                },
                _ => AcceptorAction::Continue,
            },
            AcceptorPhase::Accepting => match event {
                AcceptorEvent::Connected => AcceptorAction::Handshake,
                AcceptorEvent::HandshakeSucceeded => AcceptorAction::Serve,
                AcceptorEvent::HandshakeFailed => AcceptorAction::Discard,
                AcceptorEvent::AcceptFailed => AcceptorAction::Discard,
                AcceptorEvent::Bound => AcceptorAction::Continue,
                AcceptorEvent::BindFailed => AcceptorAction::Continue,
            },
            AcceptorPhase::Aborted => AcceptorAction::Abort,
        }
    }
}

/// No attempt that fails stops the acceptor. An acceptor that accepts still
/// accepts after any events whatever, failed handshakes among them, and then
/// answers the next connection with its handshake and the next handshake
/// that succeeds with a session.
pub proof fn lemma_acceptor_keeps_accepting(events: Seq<AcceptorEvent>)
    ensures
        phase_after(AcceptorPhase::Accepting, events) == AcceptorPhase::Accepting,
        accept_step(phase_after(AcceptorPhase::Accepting, events), AcceptorEvent::Connected) == (
            AcceptorPhase::Accepting,
            AcceptorAction::Handshake,
        ),
        accept_step(
            phase_after(AcceptorPhase::Accepting, events),
            AcceptorEvent::HandshakeSucceeded,
        ) == (AcceptorPhase::Accepting, AcceptorAction::Serve),
    decreases events.len(),
{
    if events.len() > 0 {
        lemma_acceptor_keeps_accepting(events.drop_last());
    }
}

/// A handshake that fails is dropped and changes nothing: the acceptor is in
/// the phase it was in, and the action never ends the process unless the
/// acceptor had given up before.
pub proof fn lemma_failed_handshake_changes_nothing(phase: AcceptorPhase)
    ensures
        accept_step(phase, AcceptorEvent::HandshakeFailed).0 == phase,
        phase != AcceptorPhase::Aborted ==> accept_step(phase, AcceptorEvent::HandshakeFailed).1
            != AcceptorAction::Abort,
{
}

} // verus!
