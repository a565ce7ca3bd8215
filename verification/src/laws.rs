use vstd::prelude::*;

use crate::context::Context;
use crate::event::{dispatch_pair, is_init, Event};
use crate::mailbox::mailbox_trace;
use crate::state::ActorState;

verus! {

/// Initialization law: in any well-formed context that has run at all, the
/// very first recorded invocation is the one initial hook — `started`, or
/// `restarting` under a supervisor — and no initial hook is ever recorded
/// again. Every dispatch and every other hook therefore comes strictly
/// after it.
pub proof fn lemma_init_hook_first_and_once(c: Context)
    requires
        c.wf(),
        c.log@.len() > 0,
    ensures
        is_init(c.log@[0]),
        forall|i: int| 0 < i < c.log@.len() ==> !is_init(#[trigger] c.log@[i]),
{
}

/// Terminality law: a context that reached `Stopped` records the `stopped`
/// hook as its very last invocation — it ran exactly once, and nothing was
/// recorded after it. The runtime offers no operation that runs a hook or a
/// dispatch on a `Stopped` context, so the history can never grow again.
pub proof fn lemma_stopped_terminal(c: Context)
    requires
        c.wf(),
        c.state == ActorState::Stopped,
    ensures
        c.log@.len() > 0,
        c.log@.last() is Stopped,
        forall|i: int|
            0 <= i < c.log@.len() && (#[trigger] c.log@[i]) is Stopped ==> i == c.log@.len() - 1,
{
}

/// Exclusivity law: in any well-formed history, every dispatch that entered
/// the actor left it before the next record of any kind — each `Entered` is
/// immediately followed by its own `Exited`, and each `Exited` immediately
/// follows its own `Entered`. Two dispatches into one actor never overlap.
pub proof fn lemma_dispatch_serial(c: Context)
    requires
        c.wf(),
    ensures
        forall|i: int|
            0 <= i < c.log@.len() && (#[trigger] c.log@[i]) is Entered ==> i + 1 < c.log@.len()
                && dispatch_pair(c.log@[i], c.log@[i + 1]),
        forall|i: int|
            0 <= i < c.log@.len() && (#[trigger] c.log@[i]) is Exited ==> 0 < i && dispatch_pair(
                c.log@[i - 1],
                c.log@[i],
            ),
{
}

/// Length of the dispatch trace of a mailbox batch: two records per message.
pub proof fn lemma_mailbox_trace_len(src: nat, start: nat, n: nat)
    ensures
        mailbox_trace(src, start, n).len() == 2 * n,
    decreases n,
{
    if n > 0 {
        lemma_mailbox_trace_len(src, start, (n - 1) as nat);
    }
}

/// FIFO law for one source: in the trace a mailbox batch leaves in the
/// history, the `j`-th dispatched message is exactly the one at queue
/// position `j` — messages delivered through one address enter `handle` in
/// the order they were accepted from that address.
pub proof fn lemma_mailbox_trace_fifo(src: nat, start: nat, n: nat, j: int)
    requires
        0 <= j < n,
    ensures
        mailbox_trace(src, start, n).len() == 2 * n,
        mailbox_trace(src, start, n)[2 * j] == (Event::Entered {
            src,
            idx: (start + j) as nat,
        }),
        mailbox_trace(src, start, n)[2 * j + 1] == (Event::Exited {
            src,
            idx: (start + j) as nat,
        }),
    decreases n,
{
    lemma_mailbox_trace_len(src, start, n);
    let prev = mailbox_trace(src, start, (n - 1) as nat);
    lemma_mailbox_trace_len(src, start, (n - 1) as nat);
    if j < n - 1 {
        lemma_mailbox_trace_fifo(src, start, (n - 1) as nat, j);
        assert(mailbox_trace(src, start, n)[2 * j] == prev[2 * j]);
        assert(mailbox_trace(src, start, n)[2 * j + 1] == prev[2 * j + 1]);
    }
}

} // verus!
