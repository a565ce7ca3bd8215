use vstd::prelude::*;

verus! {

/// One observed invocation in an actor's life, recorded in the ghost history
/// of its context. The history is what the lifecycle guarantees are stated
/// over: which hooks ran, in which order, and which source fed each dispatch.
pub ghost enum Event {
    /// The `started` hook ran, on the first poll of a fresh context.
    Started,
    /// The `restarting` hook ran in place of `started`, under a supervisor.
    Restarting,
    /// The `stopping` hook ran, on entry to `ActorState::Stopping`.
    Stopping,
    /// The `stopped` hook ran, on entry to the terminal state.
    Stopped,
    /// A dispatch into `Handler::handle` began. `src` identifies the work
    /// unit or mailbox that produced the value, `idx` the position of the
    /// value within that one source.
    Entered { src: nat, idx: nat },
    /// The dispatch that began with the matching `Entered` returned.
    Exited { src: nat, idx: nat },
    /// `Handler::error` ran for a failure reported by source `src`.
    Failed { src: nat },
    /// `StreamHandler::started` ran: the sequence registered as work unit
    /// `src` was polled for the first time.
    StreamStarted { src: nat },
    /// `StreamHandler::finished` ran: the sequence registered as work unit
    /// `src` reported exhaustion.
    StreamFinished { src: nat },
}

/// The two events that can open a history: the initial hook of a fresh
/// context, or of a restarted one under a supervisor.
pub open spec fn is_init(e: Event) -> bool {
    e is Started || e is Restarting
}

/// `b` closes exactly the dispatch that `a` opened.
pub open spec fn dispatch_pair(a: Event, b: Event) -> bool {
    match (a, b) {
        (Event::Entered { src: s1, idx: i1 }, Event::Exited { src: s2, idx: i2 }) => s1 == s2
            && i1 == i2,
        _ => false,
    }
}

/// The first recorded invocation, if any, is the unique initial hook: it
/// stands at the front of the history and is never recorded again.
pub open spec fn init_first_once(log: Seq<Event>) -> bool {
    &&& log.len() > 0 ==> is_init(log[0])
    &&& forall|i: int| 0 < i < log.len() ==> !is_init(#[trigger] log[i])
}

/// A `stopped` record can only stand at the very end of a history: nothing is
/// ever recorded after the terminal hook.
pub open spec fn stopped_only_last(log: Seq<Event>) -> bool {
    forall|i: int|
        0 <= i < log.len() && (#[trigger] log[i]) is Stopped ==> i == log.len() - 1
}

/// Dispatches are serial: every `Entered` record is immediately followed by
/// its own `Exited` record, and every `Exited` record immediately follows its
/// own `Entered` record. Two dispatches therefore never overlap.
pub open spec fn serial(log: Seq<Event>) -> bool {
    &&& forall|i: int|
        0 <= i < log.len() && (#[trigger] log[i]) is Entered ==> i + 1 < log.len()
            && dispatch_pair(log[i], log[i + 1])
    &&& forall|i: int|
        0 <= i < log.len() && (#[trigger] log[i]) is Exited ==> 0 < i && dispatch_pair(
            log[i - 1],
            log[i],
        )
}

/// Some dispatch or hook history record marks the terminal hook.
pub open spec fn has_stopped_event(log: Seq<Event>) -> bool {
    exists|i: int| 0 <= i < log.len() && (#[trigger] log[i]) is Stopped
}

/// A history is coherent when all three structural guarantees hold of it.
pub open spec fn log_ok(log: Seq<Event>) -> bool {
    init_first_once(log) && stopped_only_last(log) && serial(log)
}

/// Appending a plain record — neither an initial hook, nor a dispatch marker —
/// to a coherent, still-running history keeps it coherent.
pub proof fn lemma_push_plain(log: Seq<Event>, e: Event)
    requires
        log_ok(log),
        log.len() > 0,
        !has_stopped_event(log),
        !is_init(e),
        !(e is Entered),
        !(e is Exited),
    ensures
        log_ok(log.push(e)),
        e is Stopped ==> has_stopped_event(log.push(e)) && log.push(e).last() is Stopped,
        !(e is Stopped) ==> !has_stopped_event(log.push(e)),
{
    let l2 = log.push(e);
    assert(forall|i: int| 0 <= i < log.len() ==> l2[i] == log[i]);
    assert(l2[log.len() as int] == e);
    assert(forall|i: int|
        0 <= i < l2.len() && (#[trigger] l2[i]) is Entered ==> i + 1 < l2.len() && dispatch_pair(
            l2[i],
            l2[i + 1],
        )) by {
        assert forall|i: int| 0 <= i < l2.len() && (#[trigger] l2[i]) is Entered implies i + 1
            < l2.len() && dispatch_pair(l2[i], l2[i + 1]) by {
            assert(i < log.len());
            assert(log[i] is Entered);
            assert(i + 1 < log.len());
        }
    }
}

/// Appending one complete dispatch — an `Entered` record at once closed by its
/// `Exited` record — to a coherent, still-running history keeps it coherent.
pub proof fn lemma_push_dispatch(log: Seq<Event>, src: nat, idx: nat)
    requires
        log_ok(log),
        log.len() > 0,
        !has_stopped_event(log),
    ensures
        log_ok(log.push(Event::Entered { src, idx }).push(Event::Exited { src, idx })),
        !has_stopped_event(log.push(Event::Entered { src, idx }).push(Event::Exited { src, idx })),
{
    let n = log.len() as int;
    let l2 = log.push(Event::Entered { src, idx }).push(Event::Exited { src, idx });
    assert(forall|i: int| 0 <= i < n ==> l2[i] == log[i]);
    assert(l2[n] == (Event::Entered { src, idx }));
    assert(l2[n + 1] == (Event::Exited { src, idx }));
    assert(dispatch_pair(l2[n], l2[n + 1]));
    assert forall|i: int| 0 <= i < l2.len() && (#[trigger] l2[i]) is Entered implies i + 1
        < l2.len() && dispatch_pair(l2[i], l2[i + 1]) by {
        if i < n {
            assert(log[i] is Entered);
            assert(i + 1 < n);
        }
    }
    assert forall|i: int| 0 <= i < l2.len() && (#[trigger] l2[i]) is Exited implies 0 < i
        && dispatch_pair(l2[i - 1], l2[i]) by {
        if i < n {
            assert(log[i] is Exited);
        }
    }
}

} // verus!
