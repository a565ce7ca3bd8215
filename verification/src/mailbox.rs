use vstd::prelude::*;

use crate::actor::{Handler, Response, ResponseType};
use crate::context::Context;
use crate::event::Event;
use crate::runtime::dispatch;
use crate::state::ActorState;

verus! {

/// FIFO queue of not-yet-dispatched messages from one source: one address
/// feeding one actor. Delivery through one mailbox preserves the order the
/// messages were accepted in; across distinct sources no order is promised,
/// only the mutual exclusion of the dispatches themselves.
pub struct Mailbox<M> {
    /// Identity of this source, as it appears in the `Entered`/`Exited`
    /// records of the context history.
    pub src: u64,
    /// Messages accepted and not yet dispatched, oldest first.
    pub queue: Vec<M>,
    /// How many messages of this source have already been dispatched.
    pub delivered: Ghost<nat>,
}

impl<M> Mailbox<M> {
    /// An empty mailbox for the source named `src`.
    pub fn new(src: u64) -> (m: Mailbox<M>)
        ensures
            m.src == src,
            m.queue@ == Seq::<M>::empty(),
            m.delivered@ == 0,
    {
        Mailbox { src, queue: Vec::new(), delivered: Ghost(0) }
    }

    /// Accept one message at the back of the queue.
    pub fn push(&mut self, msg: M)
        ensures
            final(self).src == old(self).src,
            final(self).delivered@ == old(self).delivered@,
            final(self).queue@ == old(self).queue@.push(msg),
    {
        self.queue.push(msg);
    }

    /// Number of messages waiting in the queue.
    pub fn len(&self) -> (n: usize)
        ensures
            n == self.queue@.len(),
    {
        self.queue.len()
    }
}

/// The dispatch trace a batch of `n` mailbox messages leaves in the context
/// history: one `Entered`/`Exited` pair per message, positions `start` up to
/// `start + n` of the source `src`, in queue order.
pub open spec fn mailbox_trace(src: nat, start: nat, n: nat) -> Seq<Event>
    decreases n,
{
    if n == 0 {
        Seq::empty()
    } else {
        mailbox_trace(src, start, (n - 1) as nat).push(
            Event::Entered { src, idx: (start + n - 1) as nat },
        ).push(Event::Exited { src, idx: (start + n - 1) as nat })
    }
}

/// Dispatch the oldest queued message of one mailbox through the actor's
/// `handle`. The recorded position is the count of messages this source had
/// already delivered, so one source's positions grow by one per dispatch.
pub fn deliver_next<A, M, E>(actor: &mut A, ctx: &mut Context, mb: &mut Mailbox<M>) -> (r:
    Response<<A as ResponseType<M>>::Item, <A as ResponseType<M>>::Error>) where A: Handler<M, E>
    requires
        old(ctx).wf(),
        old(ctx).state == ActorState::Running,
        !old(ctx).in_dispatch,
        old(mb).queue@.len() > 0,
    ensures
        final(ctx).wf(),
        !final(ctx).in_dispatch,
        final(ctx).state == ActorState::Running,
        final(mb).src == old(mb).src,
        final(mb).queue@ == old(mb).queue@.subrange(1, old(mb).queue@.len() as int),
        final(mb).delivered@ == old(mb).delivered@ + 1,
        final(ctx).log@ == old(ctx).log@.push(
            Event::Entered { src: old(mb).src as nat, idx: old(mb).delivered@ },
        ).push(Event::Exited { src: old(mb).src as nat, idx: old(mb).delivered@ }),
        old(ctx).revived ==> final(ctx).revived,
{
    let msg = queue_remove_front(&mut mb.queue);
    let r = dispatch::<A, M, E>(actor, ctx, msg, Ghost(mb.src as nat), Ghost(mb.delivered@));
    proof {
        mb.delivered@ = mb.delivered@ + 1;
    }
    r
}

/// Take the oldest message out of a queue.
fn queue_remove_front<M>(q: &mut Vec<M>) -> (m: M)
    requires
        old(q)@.len() > 0,
    ensures
        m == old(q)@[0],
        final(q)@ == old(q)@.subrange(1, old(q)@.len() as int),
{
    let m = q.remove(0);
    proof {
        assert(q@ =~= old(q)@.subrange(1, old(q)@.len() as int));
    }
    m
}

/// Dispatch every queued message of one mailbox, oldest first: the FIFO
/// guarantee for a single source, stated end to end. The batch leaves
/// exactly `mailbox_trace` in the history — the messages enter `handle` in
/// the order they were accepted. Replies are discarded here; routing them
/// back to senders belongs to the address layer outside this core.
pub fn deliver_all<A, M, E>(actor: &mut A, ctx: &mut Context, mb: &mut Mailbox<M>) where
    A: Handler<M, E>

    requires
        old(ctx).wf(),
        old(ctx).state == ActorState::Running,
        !old(ctx).in_dispatch,
    ensures
        final(ctx).wf(),
        !final(ctx).in_dispatch,
        final(ctx).state == ActorState::Running,
        final(mb).src == old(mb).src,
        final(mb).queue@.len() == 0,
        final(mb).delivered@ == old(mb).delivered@ + old(mb).queue@.len(),
        final(ctx).log@ == old(ctx).log@ + mailbox_trace(
            old(mb).src as nat,
            old(mb).delivered@,
            old(mb).queue@.len() as nat,
        ),
        old(ctx).revived ==> final(ctx).revived,
{
    let ghost src0 = old(mb).src;
    let ghost src = old(mb).src as nat;
    let ghost start = old(mb).delivered@;
    let ghost total = old(mb).queue@.len() as nat;
    let ghost queue0 = old(mb).queue@;
    let ghost log0 = old(ctx).log@;
    let ghost rev0 = old(ctx).revived;
    proof {
        assert(log0 + mailbox_trace(src, start, 0) =~= log0);
        assert(queue0.subrange(0, total as int) =~= queue0);
    }
    let mut n = mb.len();
    while n > 0
        invariant
            ctx.wf(),
            ctx.state == ActorState::Running,
            !ctx.in_dispatch,
            queue0.len() == total,
            src == src0 as nat,
            mb.src == src0,
            n == mb.queue@.len(),
            mb.queue@.len() <= total,
            mb.delivered@ == start + total - mb.queue@.len(),
            mb.queue@ == queue0.subrange(total - mb.queue@.len(), total as int),
            ctx.log@ == log0 + mailbox_trace(src, start, (total - mb.queue@.len()) as nat),
            rev0 ==> ctx.revived,
        decreases n,
    {
        let ghost done_before: nat = (total - mb.queue@.len()) as nat;
        let ghost qpre: Seq<M> = mb.queue@;
        let _ = deliver_next::<A, M, E>(actor, ctx, mb);
        proof {
            let done: nat = (done_before + 1) as nat;
            let off: int = total - qpre.len();
            assert forall|i: int| 0 <= i < mb.queue@.len() implies mb.queue@[i] == queue0[off + 1
                + i] by {
                assert(qpre.subrange(1, qpre.len() as int)[i] == qpre[1 + i]);
                assert(queue0.subrange(off, total as int)[1 + i] == queue0[off + 1 + i]);
            }
            assert(mb.queue@ =~= queue0.subrange(total - mb.queue@.len(), total as int));
            assert(mailbox_trace(src, start, done) == mailbox_trace(src, start, done_before).push(
                Event::Entered { src, idx: (start + done_before) as nat },
            ).push(Event::Exited { src, idx: (start + done_before) as nat }));
            assert(ctx.log@ =~= log0 + mailbox_trace(src, start, done));
        }
        n = mb.len();
    }
}

} // verus!
