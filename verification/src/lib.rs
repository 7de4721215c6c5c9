//! An actor that hands out unique identifiers, and the handle through which any
//! number of callers reach it.
//!
//! The actor owns a counter and the receiving end of a bounded queue of requests;
//! a handle owns a sending end of that queue. A request carries the sending half
//! of a one-shot channel, and the actor answers it there. The queue and the
//! one-shot channels are tokio's. This crate holds what the two sides decide: how
//! the counter moves, what is sent in reply, when the actor stops, and how a
//! caller reads the end of its wait. Waiting itself (for room in the queue, for a
//! request, for a reply) is left to the program that runs the actor.

pub mod actor;
pub mod channel;
pub mod handle;
pub mod protocol;

pub use actor::{Actor, Message, Status};
pub use handle::{ActorKilled, Handle};
pub use protocol::ActorState;
