use vstd::prelude::*;

verus! {

/// Execution state of one actor's context.
///
/// Exactly one state is associated with a context at any instant. `Stopped`
/// is terminal: once it is entered, no further hook or handler invocation
/// occurs in that context.
#[derive(PartialEq, Eq, Structural, Debug, Copy, Clone)]
pub enum ActorState {
    /// The context was polled for the first time and the `started` hook has
    /// not completed yet.
    Started,
    /// Normal operation: messages and spawned work units are dispatched.
    Running,
    /// A stop was triggered; the `stopping` hook decides between restoration
    /// back to `Running` and teardown into `Stopped`.
    Stopping,
    /// Terminal state; the actor is dropped right after its `stopped` hook.
    Stopped,
}

} // verus!
