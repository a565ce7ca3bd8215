use vstd::prelude::*;

use crate::actor::{Handler, Response, ResponseType, StreamHandler};
use crate::context::Context;
use crate::event::{lemma_push_plain, Event};
use crate::runtime::{dispatch, dispatch_failure};
use crate::state::ActorState;

verus! {

/// Boundary of the adapter that wraps one deferred computation as a unit of
/// actor-driven work. The computation itself is polled by the driver outside
/// this core; the cell records only its registration in the context. The
/// cell is consumed by resolution or failure, so each wrapped computation is
/// routed into the actor at most once, and the adapter removes itself from
/// the context in the same step.
pub struct FutureCell {
    /// Slot handle of the work unit this adapter registered.
    pub unit: usize,
}

/// Boundary of the adapter that wraps one asynchronous sequence as a unit of
/// actor-driven work. The sequence is polled outside this core; the cell
/// tracks its registration, whether its first poll already ran the
/// `StreamHandler::started` hook, and how many items it has yielded.
pub struct StreamCell {
    /// Slot handle of the work unit this adapter registered.
    pub unit: usize,
    /// The sequence was polled at least once: `started` has run.
    pub started: bool,
    /// How many items this sequence has routed into `handle`.
    pub delivered: Ghost<nat>,
}

impl Context {
    /// Register a deferred computation as a unit of this actor's work. On a
    /// `Stopped` context the call is rejected and no unit is registered;
    /// otherwise the returned cell stands for the wrapped computation until
    /// it resolves or fails.
    pub fn add_future(&mut self) -> (r: Option<FutureCell>)
        requires
            old(self).wf(),
        ensures
            final(self).wf(),
            final(self).state == old(self).state,
            final(self).in_dispatch == old(self).in_dispatch,
            final(self).stop_requested == old(self).stop_requested,
            final(self).log@ == old(self).log@,
            final(self).addrs@ == old(self).addrs@,
            old(self).state == ActorState::Stopped ==> r is None && *final(self) == *old(self),
            old(self).state != ActorState::Stopped ==> {
                &&& r is Some
                &&& final(self).unit_live(r->0.unit as int)
                &&& final(self).live_units() == old(self).live_units() + 1
                &&& forall|j: int| old(self).unit_live(j) ==> final(self).unit_live(j)
                &&& final(self).revived == (old(self).revived || old(self).state
                    == ActorState::Stopping)
            },
    {
        match self.spawn() {
            None => None,
            Some(h) => Some(FutureCell { unit: h }),
        }
    }

    /// Register an asynchronous sequence as a unit of this actor's work,
    /// with the same `Stopped` rejection as `add_future`. The returned cell
    /// stands for the wrapped sequence until it is exhausted.
    pub fn add_stream(&mut self) -> (r: Option<StreamCell>)
        requires
            old(self).wf(),
        ensures
            final(self).wf(),
            final(self).state == old(self).state,
            final(self).in_dispatch == old(self).in_dispatch,
            final(self).stop_requested == old(self).stop_requested,
            final(self).log@ == old(self).log@,
            final(self).addrs@ == old(self).addrs@,
            old(self).state == ActorState::Stopped ==> r is None && *final(self) == *old(self),
            old(self).state != ActorState::Stopped ==> {
                &&& r is Some
                &&& !r->0.started
                &&& r->0.delivered@ == 0
                &&& final(self).unit_live(r->0.unit as int)
                &&& final(self).live_units() == old(self).live_units() + 1
                &&& forall|j: int| old(self).unit_live(j) ==> final(self).unit_live(j)
                &&& final(self).revived == (old(self).revived || old(self).state
                    == ActorState::Stopping)
            },
    {
        match self.spawn() {
            None => None,
            Some(h) => Some(StreamCell { unit: h, started: false, delivered: Ghost(0) }),
        }
    }
}

/// Resolution of a wrapped deferred computation: the adapter removes itself
/// from the context — removal is one step with the completion signal — and
/// routes the resolved value into the actor's `handle`.
pub fn future_resolve<A, M, E>(actor: &mut A, ctx: &mut Context, cell: FutureCell, value: M) -> (r:
    Response<<A as ResponseType<M>>::Item, <A as ResponseType<M>>::Error>) where A: Handler<M, E>
    requires
        old(ctx).wf(),
        old(ctx).state == ActorState::Running,
        !old(ctx).in_dispatch,
        old(ctx).unit_live(cell.unit as int),
    ensures
        final(ctx).wf(),
        !final(ctx).in_dispatch,
        final(ctx).state == ActorState::Running,
        final(ctx).log@ == old(ctx).log@.push(
            Event::Entered { src: cell.unit as nat, idx: 0 },
        ).push(Event::Exited { src: cell.unit as nat, idx: 0 }),
        old(ctx).revived ==> final(ctx).revived,
{
    ctx.remove_unit(cell.unit);
    dispatch::<A, M, E>(actor, ctx, value, Ghost(cell.unit as nat), Ghost(0))
}

/// Failure of a wrapped deferred computation: the adapter removes itself
/// from the context and routes the error into the actor's `error` hook.
pub fn future_fail<A, M, E>(actor: &mut A, ctx: &mut Context, cell: FutureCell, err: E) where
    A: Handler<M, E>

    requires
        old(ctx).wf(),
        old(ctx).state == ActorState::Running,
        !old(ctx).in_dispatch,
        old(ctx).unit_live(cell.unit as int),
    ensures
        final(ctx).wf(),
        !final(ctx).in_dispatch,
        final(ctx).state == ActorState::Running,
        final(ctx).log@ == old(ctx).log@.push(Event::Failed { src: cell.unit as nat }),
        old(ctx).revived ==> final(ctx).revived,
{
    ctx.remove_unit(cell.unit);
    dispatch_failure::<A, M, E>(actor, ctx, err, Ghost(cell.unit as nat));
}

/// First poll of a wrapped sequence: `StreamHandler::started` runs, once per
/// sequence, before any of its items is dispatched.
pub fn stream_started<A, M, E>(actor: &mut A, ctx: &mut Context, cell: &mut StreamCell) where
    A: StreamHandler<M, E>

    requires
        old(ctx).wf(),
        old(ctx).state == ActorState::Running,
        !old(ctx).in_dispatch,
        !old(cell).started,
    ensures
        final(ctx).wf(),
        !final(ctx).in_dispatch,
        final(ctx).state == ActorState::Running,
        final(cell).started,
        final(cell).unit == old(cell).unit,
        final(cell).delivered@ == old(cell).delivered@,
        final(ctx).log@ == old(ctx).log@.push(
            Event::StreamStarted { src: old(cell).unit as nat },
        ),
        old(ctx).revived ==> final(ctx).revived,
{
    <A as StreamHandler<M, E>>::started(actor, ctx);
    proof {
        lemma_push_plain(ctx.log@, Event::StreamStarted { src: cell.unit as nat });
    }
    ctx.log = Ghost(ctx.log@.push(Event::StreamStarted { src: cell.unit as nat }));
    cell.started = true;
}

/// One yielded item of a wrapped sequence, routed through the same `handle`
/// entry as a discrete message; the recorded position is the count of items
/// the sequence yielded before, so one sequence's items stay in order.
pub fn stream_deliver<A, M, E>(actor: &mut A, ctx: &mut Context, cell: &mut StreamCell, item: M)
    -> (r: Response<<A as ResponseType<M>>::Item, <A as ResponseType<M>>::Error>) where
    A: StreamHandler<M, E>

    requires
        old(ctx).wf(),
        old(ctx).state == ActorState::Running,
        !old(ctx).in_dispatch,
        old(cell).started,
    ensures
        final(ctx).wf(),
        !final(ctx).in_dispatch,
        final(ctx).state == ActorState::Running,
        final(cell).started,
        final(cell).unit == old(cell).unit,
        final(cell).delivered@ == old(cell).delivered@ + 1,
        final(ctx).log@ == old(ctx).log@.push(
            Event::Entered { src: old(cell).unit as nat, idx: old(cell).delivered@ },
        ).push(Event::Exited { src: old(cell).unit as nat, idx: old(cell).delivered@ }),
        old(ctx).revived ==> final(ctx).revived,
{
    let r = dispatch::<A, M, E>(actor, ctx, item, Ghost(cell.unit as nat), Ghost(cell.delivered@));
    proof {
        cell.delivered@ = cell.delivered@ + 1;
    }
    r
}

/// Failure of a wrapped sequence, routed into the actor's `error` hook; the
/// sequence stays registered, as a source may fail an item and go on.
pub fn stream_fail<A, M, E>(actor: &mut A, ctx: &mut Context, cell: &mut StreamCell, err: E) where
    A: StreamHandler<M, E>

    requires
        old(ctx).wf(),
        old(ctx).state == ActorState::Running,
        !old(ctx).in_dispatch,
        old(cell).started,
    ensures
        final(ctx).wf(),
        !final(ctx).in_dispatch,
        final(ctx).state == ActorState::Running,
        *final(cell) == *old(cell),
        final(ctx).log@ == old(ctx).log@.push(Event::Failed { src: old(cell).unit as nat }),
        old(ctx).revived ==> final(ctx).revived,
{
    dispatch_failure::<A, M, E>(actor, ctx, err, Ghost(cell.unit as nat));
}

/// Exhaustion of a wrapped sequence: the adapter removes itself from the
/// context — one step with the completion signal — and `StreamHandler::finished`
/// runs once. The cell is consumed; the sequence cannot yield again.
pub fn stream_finish<A, M, E>(actor: &mut A, ctx: &mut Context, cell: StreamCell) where
    A: StreamHandler<M, E>

    requires
        old(ctx).wf(),
        old(ctx).state == ActorState::Running,
        !old(ctx).in_dispatch,
        cell.started,
        old(ctx).unit_live(cell.unit as int),
    ensures
        final(ctx).wf(),
        !final(ctx).in_dispatch,
        final(ctx).state == ActorState::Running,
        final(ctx).log@ == old(ctx).log@.push(
            Event::StreamFinished { src: cell.unit as nat },
        ),
        old(ctx).revived ==> final(ctx).revived,
{
    ctx.remove_unit(cell.unit);
    <A as StreamHandler<M, E>>::finished(actor, ctx);
    proof {
        lemma_push_plain(ctx.log@, Event::StreamFinished { src: cell.unit as nat });
    }
    ctx.log = Ghost(ctx.log@.push(Event::StreamFinished { src: cell.unit as nat }));
}

} // verus!
