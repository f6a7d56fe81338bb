//! An actor layer for the Move VM.
//!
//! An actor is a piece of typed state at an address. It is created by the initializer of
//! its module and changed only by the module's message handlers. This crate holds what
//! such a runtime decides: which actors and messages exist ([`vm`]), what each step of
//! creating an actor or handling a message asks of the execution engine and what the
//! engine's answer leads to ([`session`]), and what an operation ends in ([`outcome`]).
//! The engine itself is driven by the program that embeds this crate.

pub mod actor_metadata;
pub mod catalog;
pub mod core_types;
mod dispatch;
pub mod effects;
pub mod outcome;
pub mod session;
pub mod vm;

pub use actor_metadata::{message_hash, ActorMetadata};
pub use outcome::{AsyncError, AsyncExtension, AsyncResult, AsyncSuccess, Failure, Message};
pub use session::AsyncSession;
pub use vm::AsyncVM;
