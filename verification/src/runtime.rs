use vstd::prelude::*;

use crate::actor::{Actor, Handler, Response, Supervised};
use crate::context::Context;
use crate::event::{lemma_push_dispatch, lemma_push_plain, Event};
use crate::state::ActorState;

verus! {

/// First poll of a fresh context: the `started` hook runs while the state is
/// `Started`, its invocation is recorded, and the context moves to `Running`.
pub fn poll_first<A: Actor>(actor: &mut A, ctx: &mut Context)
    requires
        old(ctx).wf(),
        old(ctx).state == ActorState::Started,
        !old(ctx).in_dispatch,
    ensures
        final(ctx).wf(),
        !final(ctx).in_dispatch,
        final(ctx).state == ActorState::Running,
        final(ctx).log@ == old(ctx).log@.push(Event::Started),
        old(ctx).revived ==> final(ctx).revived,
{
    actor.started(ctx);
    proof {
        assert(ctx.log@.push(Event::Started) =~= seq![Event::Started]);
    }
    ctx.log = Ghost(ctx.log@.push(Event::Started));
    ctx.state = ActorState::Running;
}

/// First poll of the fresh context a supervisor built for a restarted actor:
/// the `restarting` hook runs in place of `started`, and the normal
/// `Started -> Running` sequence resumes.
pub fn poll_restarting<A: Supervised>(actor: &mut A, ctx: &mut Context)
    requires
        old(ctx).wf(),
        old(ctx).state == ActorState::Started,
        !old(ctx).in_dispatch,
    ensures
        final(ctx).wf(),
        !final(ctx).in_dispatch,
        final(ctx).state == ActorState::Running,
        final(ctx).log@ == old(ctx).log@.push(Event::Restarting),
        old(ctx).revived ==> final(ctx).revived,
{
    actor.restarting(ctx);
    proof {
        assert(ctx.log@.push(Event::Restarting) =~= seq![Event::Restarting]);
    }
    ctx.log = Ghost(ctx.log@.push(Event::Restarting));
    ctx.state = ActorState::Running;
}

/// One liveness check of a running context. When a stop is triggered — the
/// actor requested it, or neither an address handle nor a work unit remains —
/// the context walks the stopping sequence: `Stopping` with its hook, then
/// either restoration back to `Running` (the hook registered new work or a
/// new address, leaving the revival mark set) or the terminal `Stopped` with
/// its hook. Without a trigger the context is left untouched.
pub fn poll_running<A: Actor>(actor: &mut A, ctx: &mut Context)
    requires
        old(ctx).wf(),
        old(ctx).state == ActorState::Running,
        !old(ctx).in_dispatch,
    ensures
        final(ctx).wf(),
        !final(ctx).in_dispatch,
        !old(ctx).stop_triggered() ==> *final(ctx) == *old(ctx),
        old(ctx).stop_triggered() && final(ctx).revived ==> final(ctx).state
            == ActorState::Running && final(ctx).log@ == old(ctx).log@.push(Event::Stopping),
        old(ctx).stop_triggered() && !final(ctx).revived ==> final(ctx).state
            == ActorState::Stopped && final(ctx).log@ == old(ctx).log@.push(Event::Stopping).push(
            Event::Stopped,
        ),
{
    let live_units = ctx.has_live_units();
    let live_addrs = ctx.has_live_addrs();
    if ctx.stop_requested || (!live_units && !live_addrs) {
        ctx.state = ActorState::Stopping;
        ctx.revived = false;
        actor.stopping(ctx);
        proof {
            lemma_push_plain(ctx.log@, Event::Stopping);
        }
        ctx.log = Ghost(ctx.log@.push(Event::Stopping));
        if ctx.revived {
            ctx.state = ActorState::Running;
        } else {
            proof {
                lemma_push_plain(ctx.log@, Event::Stopped);
            }
            ctx.log = Ghost(ctx.log@.push(Event::Stopped));
            ctx.state = ActorState::Stopped;
            actor.stopped(ctx);
        }
    }
}

/// Route one value into the actor's `handle`, under the dispatch guard, and
/// record the dispatch as its `Entered`/`Exited` pair. `src` names the
/// source that produced the value, `idx` the value's position within that
/// source.
pub(crate) fn dispatch<A, M, E>(
    actor: &mut A,
    ctx: &mut Context,
    msg: M,
    Ghost(src): Ghost<nat>,
    Ghost(idx): Ghost<nat>,
) -> (r: Response<<A as crate::actor::ResponseType<M>>::Item, <A as crate::actor::ResponseType<
    M,
>>::Error>) where A: Handler<M, E>
    requires
        old(ctx).wf(),
        old(ctx).state == ActorState::Running,
        !old(ctx).in_dispatch,
    ensures
        final(ctx).wf(),
        !final(ctx).in_dispatch,
        final(ctx).state == ActorState::Running,
        final(ctx).log@ == old(ctx).log@.push(Event::Entered { src, idx }).push(
            Event::Exited { src, idx },
        ),
        old(ctx).revived ==> final(ctx).revived,
{
    ctx.in_dispatch = true;
    let r = actor.handle(msg, ctx);
    ctx.in_dispatch = false;
    proof {
        lemma_push_dispatch(ctx.log@, src, idx);
    }
    ctx.log = Ghost(
        ctx.log@.push(Event::Entered { src, idx }).push(Event::Exited { src, idx }),
    );
    r
}

/// Route one failure of an asynchronous source into the actor's `error`
/// hook, under the same dispatch guard as `handle`, and record it.
pub(crate) fn dispatch_failure<A, M, E>(
    actor: &mut A,
    ctx: &mut Context,
    err: E,
    Ghost(src): Ghost<nat>,
) where A: Handler<M, E>
    requires
        old(ctx).wf(),
        old(ctx).state == ActorState::Running,
        !old(ctx).in_dispatch,
    ensures
        final(ctx).wf(),
        !final(ctx).in_dispatch,
        final(ctx).state == ActorState::Running,
        final(ctx).log@ == old(ctx).log@.push(Event::Failed { src }),
        old(ctx).revived ==> final(ctx).revived,
{
    ctx.in_dispatch = true;
    actor.error(err, ctx);
    ctx.in_dispatch = false;
    proof {
        lemma_push_plain(ctx.log@, Event::Failed { src });
    }
    ctx.log = Ghost(ctx.log@.push(Event::Failed { src }));
}

} // verus!
