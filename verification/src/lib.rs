//! A small real-time text broadcast service: every connected peer sends text
//! lines and receives every line that any peer sent, tagged with its sender.
//!
//! The crate holds the decisions of that service as verified state machines:
//! what a connection session does with each frame and each delivered line
//! ([`session`]), what the acceptor does with each connection and handshake
//! ([`acceptor`]), and what the interactive client does with each line typed
//! ([`client`], [`command`]). Around them stand the values they speak of
//! ([`frame`], [`message`], [`endpoint`]), the hub that carries the lines
//! from one session to all ([`hub`]) and the registry of the sessions being
//! served ([`registry`]).
//!
//! The sockets, the handshake and the waiting on several sources at once
//! belong to the program around the crate: it hands each event to the state
//! machine concerned, carries out what that asks for, and comes back with
//! the next event.

pub mod acceptor;
pub mod client;
pub mod command;
pub mod endpoint;
pub mod frame;
pub mod hub;
pub mod message;
pub mod registry;
pub mod session;
