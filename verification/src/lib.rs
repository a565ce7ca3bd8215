//! Execution core of an actor framework.
//!
//! One actor is an isolated unit of state and behavior, driven by exactly one
//! [`context::Context`] through a four-state lifecycle. All values the actor
//! consumes — discrete messages from its mailbox, results of deferred
//! computations, items of asynchronous sequences — are routed through the one
//! exclusive dispatch entry of [`actor::Handler`], so the actor never needs
//! internal locking. The context records every hook and handler invocation in
//! a ghost history; the contracts of the runtime functions pin down the order
//! of those invocations, and the lemmas in [`laws`] state the guarantees that
//! hold of every well-formed history.

pub mod actor;
pub mod adapters;
pub mod context;
pub mod event;
pub mod laws;
pub mod mailbox;
pub mod runtime;
pub mod state;

pub use actor::{Actor, Handler, Response, ResponseType, StreamHandler, Supervised};
pub use adapters::{FutureCell, StreamCell};
pub use context::Context;
pub use mailbox::Mailbox;
pub use state::ActorState;
