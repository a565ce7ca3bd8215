use vstd::prelude::*;

use crate::context::{hook_frame, Context};
use crate::state::ActorState;

verus! {

/// An actor: an isolated unit of state and behavior, exclusively mutated
/// while its [`Context`] is executing a hook or a dispatch.
///
/// The lifecycle hooks default to doing nothing. Each hook receives the
/// context in the state its contract names, outside any dispatch, and may use
/// the context's operations — spawn work, acquire an address, request a stop.
/// It cannot move the lifecycle or forge history records: only the runtime
/// does that, which is what the `hook_frame` obligation says.
pub trait Actor: Sized {
    /// Called when the context is polled for the first time, exactly once,
    /// strictly before any dispatch; the state it observes is `Started`.
    fn started(&mut self, ctx: &mut Context)
        requires
            old(ctx).wf(),
            old(ctx).state == ActorState::Started,
            !old(ctx).in_dispatch,
        ensures
            hook_frame(*old(ctx), *final(ctx)),
    {
    }

    /// Called on entry to `Stopping`. Registering a new address handle or a
    /// new work unit from inside this hook is the sole restoration path back
    /// to `Running`; doing nothing lets the context proceed to `Stopped`.
    fn stopping(&mut self, ctx: &mut Context)
        requires
            old(ctx).wf(),
            old(ctx).state == ActorState::Stopping,
            !old(ctx).in_dispatch,
        ensures
            hook_frame(*old(ctx), *final(ctx)),
    {
    }

    /// Called once, on the unique path into the terminal state; the actor is
    /// dropped right afterwards, so guaranteed cleanup belongs here or
    /// earlier. A stopped context accepts no new registration, so the
    /// revival mark cannot change any more.
    fn stopped(&mut self, ctx: &mut Context)
        requires
            old(ctx).wf(),
            old(ctx).state == ActorState::Stopped,
            !old(ctx).in_dispatch,
        ensures
            hook_frame(*old(ctx), *final(ctx)),
            final(ctx).revived == old(ctx).revived,
    {
    }
}

/// An actor that a supervisor can restart after failure. The supervisor
/// builds a fresh context and drives `restarting` in place of `started`;
/// the normal `Started -> Running` sequence then resumes.
pub trait Supervised: Actor {
    /// Called when the supervisor restarts the failed actor, on the fresh
    /// context, exactly once, in place of `started`.
    fn restarting(&mut self, ctx: &mut Context)
        requires
            old(ctx).wf(),
            old(ctx).state == ActorState::Started,
            !old(ctx).in_dispatch,
        ensures
            hook_frame(*old(ctx), *final(ctx)),
    {
    }
}

/// Static response association, scoped to one (actor, message) pairing: the
/// success-value type and the error type produced by handling that message.
/// Purely a compile-time contract; an actor can only be asked to handle a
/// message type for which this association and a [`Handler`] both exist.
pub trait ResponseType<M>: Actor {
    /// The type this message resolves with when handling succeeds.
    type Item;

    /// The type this message resolves with when it fails in a normal fashion.
    type Error;
}

/// What one dispatch hands back, in the representation associated with the
/// (actor, message) pairing by [`ResponseType`].
pub enum Response<I, E> {
    /// An immediate reply value.
    Reply(I),
    /// The handler failed in the normal fashion declared by the pairing.
    Failure(E),
    /// The reply will be produced later, by work the handler spawned.
    Deferred,
    /// No reply is produced for this message.
    NoReply,
}

/// Message handler: the one exclusive entry through which every value an
/// actor consumes is routed — discrete messages, resolved deferred
/// computations, and items of asynchronous sequences alike.
///
/// `M` is the message type; `E` is the error type of the asynchronous source
/// when the handler serves an adapted one (`()` for a plain mailbox, which
/// has no built-in error channel).
pub trait Handler<M, E>: ResponseType<M> {
    /// Called exactly once per received instance of `M`, with exclusive
    /// access to the actor and its context. The dispatch guard is set for
    /// the whole call, so no second dispatch can overlap this one.
    fn handle(&mut self, msg: M, ctx: &mut Context) -> (r: Response<Self::Item, Self::Error>)
        requires
            old(ctx).wf(),
            old(ctx).state == ActorState::Running,
            old(ctx).in_dispatch,
        ensures
            hook_frame(*old(ctx), *final(ctx)),
    ;

    /// Called when an adapted asynchronous source feeding this handler
    /// fails. Defaults to doing nothing: an actor relying on the default
    /// silently discards such failures.
    fn error(&mut self, err: E, ctx: &mut Context)
        requires
            old(ctx).wf(),
            old(ctx).state == ActorState::Running,
            old(ctx).in_dispatch,
        ensures
            hook_frame(*old(ctx), *final(ctx)),
    {
    }
}

/// Extension of [`Handler`] for sources that produce many values over time.
/// It adds sequence-lifecycle awareness only; every yielded value still goes
/// through the same `handle` entry as a discrete message.
pub trait StreamHandler<M, E>: Handler<M, E> {
    /// Called when the adapted sequence is polled for the first time.
    fn started(&mut self, ctx: &mut Context)
        requires
            old(ctx).wf(),
            old(ctx).state == ActorState::Running,
            !old(ctx).in_dispatch,
        ensures
            hook_frame(*old(ctx), *final(ctx)),
    {
    }

    /// Called once, when the adapted sequence reports exhaustion.
    fn finished(&mut self, ctx: &mut Context)
        requires
            old(ctx).wf(),
            old(ctx).state == ActorState::Running,
            !old(ctx).in_dispatch,
        ensures
            hook_frame(*old(ctx), *final(ctx)),
    {
    }
}

} // verus!
