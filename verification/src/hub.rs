//! The hub: the one point through which every session publishes and from
//! which every session receives.
//!
//! The fan-out itself is tokio's broadcast channel. A publisher never waits
//! for a subscriber. The channel retains a bounded number of lines; a
//! subscriber that falls further behind than that loses the oldest lines,
//! is told how many it lost, and goes on with the oldest line still retained.
//!
//! The channel's state is shared by every task that holds a handle, so
//! nothing here speaks of what the channel holds: of a publication the
//! contracts state what is true of every outcome. What they do speak of is
//! which channel a handle or a subscription belongs to. That is settled when
//! the handle is made and never changes after.

use vstd::prelude::*;
use crate::message::BroadcastMessage;
use tokio::sync::broadcast::{Receiver, Sender};

verus! {

/// tokio's `broadcast::Sender`, the publishing side of the channel. It is
/// carried as it is; nothing inside it is read.
#[verifier::external_type_specification]
#[verifier::external_body]
#[verifier::reject_recursive_types(T)]
pub struct ExSender<T>(Sender<T>);

/// tokio's `broadcast::Receiver`, one subscription to the channel. It is
/// handed to the program, which waits on it; nothing inside it is read.
#[verifier::external_type_specification]
#[verifier::external_body]
#[verifier::reject_recursive_types(T)]
pub struct ExReceiver<T>(Receiver<T>);

/// The channel that a sender belongs to: the state that it shares with every
/// other sender and receiver of that channel. A sender belongs to one channel
/// from the moment it is made until it is dropped, so this is a function of
/// the sender. What the channel holds is no part of it.
pub uninterp spec fn channel_of(sender: Sender<String>) -> int;

/// The channel that a receiver listens to, in the terms of [`channel_of`]. A
/// receiver listens to one channel for as long as it lives.
pub uninterp spec fn source_of(receiver: Receiver<String>) -> int;

/// The number of lines that the hub of the service retains for its slowest
/// subscriber before that subscriber starts to miss the oldest of them.
pub const DEFAULT_CAPACITY: usize = 16;

/// The largest capacity that a hub can be made with. The channel sets aside
/// room for every line that it may retain when it is made, so the limit is
/// kept modest.
pub const MAX_CAPACITY: usize = 65536;

/// Whether a hub can be made with room for `capacity` lines.
pub open spec fn capacity_allowed(capacity: usize) -> bool {
    0 < capacity <= MAX_CAPACITY
}

/// Calls `tokio::sync::broadcast::channel` and keeps the sending half; the
/// receiver that comes with it is dropped, so the channel starts without
/// subscribers. The call panics on a capacity of zero or above half of
/// `usize::MAX`, and sets aside room for `capacity` lines at once; `requires`
/// admits neither zero nor more than [`MAX_CAPACITY`]. Nothing is claimed of
/// the sender.
#[verifier::external_body]
fn open_channel(capacity: usize) -> (sender: Sender<String>)
    requires
        capacity_allowed(capacity),
{
    tokio::sync::broadcast::channel(capacity).0
}

/// Calls `Sender::send`. The channel answers with the number of receivers
/// that were subscribed at that moment, and refuses the line when there was
/// none: so a count that comes back is at least one. That a receiver was
/// counted does not mean that it will read the line.
#[verifier::external_body]
fn send_line(sender: &Sender<String>, line: String) -> (receivers: Option<usize>)
    ensures
        receivers matches Some(n) ==> n >= 1,
{
    sender.send(line).ok()
}

/// Calls `Sender::subscribe`, which registers one more receiver for the lines
/// that are sent from now on. The receiver is given the sender's own shared
/// state, so it listens to the sender's channel; that is all that is claimed
/// of it. The channel counts its receivers and panics when there are a
/// quarter of `usize::MAX` of them, more than a process can hold.
#[verifier::external_body]
fn subscribe_to(sender: &Sender<String>) -> (receiver: Receiver<String>)
    ensures
        source_of(receiver) == channel_of(*sender),
{
    sender.subscribe()
}

/// Calls `Sender::clone`, which makes a sender with the same shared state:
/// another handle to the same channel. That is all that is claimed of it.
#[verifier::external_body]
fn another_handle(sender: &Sender<String>) -> (handle: Sender<String>)
    ensures
        channel_of(handle) == channel_of(*sender),
{
    sender.clone()
}

/// A publication that nobody could observe: the hub had no subscriber.
/// It is reported, never fatal.
#[derive(Clone, Copy, Debug, PartialEq, Eq, Structural)]
pub struct NoSubscribers;

/// What became of a line handed to the channel, given the count that the
/// channel answered with (`None` where it refused the line).
pub open spec fn publication(receivers: Option<usize>) -> Result<usize, NoSubscribers> {
    match receivers {
        Some(n) => Ok(n),
        None => Err(NoSubscribers),
    }
}

/// Reads the channel's answer to a publication.
pub fn publication_of(receivers: Option<usize>) -> (outcome: Result<usize, NoSubscribers>)
    ensures
        outcome == publication(receivers),
{
    match receivers {
        Some(n) => Ok(n),
        None => Err(NoSubscribers),
    }
}

/// A handle to the hub. Every session and the acceptor hold one; all of them
/// lead to the same channel.
pub struct Hub {
    sender: Sender<String>,
    capacity: usize,
}

impl Hub {
    /// The capacity that the hub was made with.
    pub closed spec fn spec_capacity(&self) -> usize {
        self.capacity
    }

    /// The channel that this handle leads to. Two handles are handles to the
    /// same hub exactly when this is the same for both.
    pub closed spec fn channel(&self) -> int {
        channel_of(self.sender)
    }

    #[verifier::type_invariant]
    spec fn capacity_in_range(self) -> bool {
        capacity_allowed(self.capacity)
    }

    /// A hub without subscribers, with the default capacity.
    pub fn new() -> (hub: Hub)
        ensures
            hub.spec_capacity() == DEFAULT_CAPACITY,
    {
        Hub { sender: open_channel(DEFAULT_CAPACITY), capacity: DEFAULT_CAPACITY }
    }

    /// A hub without subscribers that retains at least `capacity` lines for a
    /// slow subscriber; `None` exactly where the capacity is zero or above
    /// [`MAX_CAPACITY`].
    pub fn with_capacity(capacity: usize) -> (hub: Option<Hub>)
        ensures
            hub.is_some() == capacity_allowed(capacity),
            hub matches Some(h) ==> h.spec_capacity() == capacity,
    {
        if capacity == 0 || capacity > MAX_CAPACITY {
            None
        } else {
            Some(Hub { sender: open_channel(capacity), capacity })
        }
    }

    /// The capacity that the hub was made with.
    #[verifier::when_used_as_spec(spec_capacity)]
    pub fn capacity(&self) -> (capacity: usize)
        ensures
            capacity == self.spec_capacity(),
            capacity_allowed(capacity),
    {
        proof {
            use_type_invariant(self);
        }
        self.capacity
    }

    /// Another handle to the same hub, for a new session.
    pub fn share(&self) -> (hub: Hub)
        ensures
            hub.channel() == self.channel(),
            hub.spec_capacity() == self.spec_capacity(),
    {
        proof {
            use_type_invariant(self);
        }
        Hub { sender: another_handle(&self.sender), capacity: self.capacity }
    }

    /// A new subscription to this hub: it receives the lines published
    /// through any handle to the hub from now on, and none of those published
    /// before.
    pub fn subscribe(&self) -> (subscription: Receiver<String>)
        ensures
            source_of(subscription) == self.channel(),
    {
        subscribe_to(&self.sender)
    }

    /// Publishes the rendered line of `message` to the subscribers of this
    /// moment, without waiting for any of them.
    ///
    /// `Ok` carries how many subscribers there were, at least one; the error
    /// comes exactly when there was none. Which of the two happens is decided
    /// by the other sessions, not by the message.
    pub fn publish(&self, message: &BroadcastMessage) -> (outcome: Result<usize, NoSubscribers>)
        ensures
            outcome matches Ok(n) ==> n >= 1,
    {
        let receivers = send_line(&self.sender, message.render());
        publication_of(receivers)
    }
}

} // verus!
