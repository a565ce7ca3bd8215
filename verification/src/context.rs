use vstd::prelude::*;

use crate::event::{log_ok, has_stopped_event, Event};
use crate::state::ActorState;

verus! {

/// Number of live slots in an arena.
pub open spec fn count_live(s: Seq<bool>) -> nat
    decreases s.len(),
{
    if s.len() == 0 {
        0
    } else {
        count_live(s.drop_last()) + (if s.last() {
            1nat
        } else {
            0nat
        })
    }
}

/// Appending a slot adds its own liveness to the count.
pub proof fn lemma_count_live_push(s: Seq<bool>, b: bool)
    ensures
        count_live(s.push(b)) == count_live(s) + (if b {
            1nat
        } else {
            0nat
        }),
{
    assert(s.push(b).drop_last() =~= s);
    assert(s.push(b).last() == b);
}

/// Rewriting one slot moves the count by the difference of the two marks.
pub proof fn lemma_count_live_update(s: Seq<bool>, i: int, b: bool)
    requires
        0 <= i < s.len(),
    ensures
        count_live(s.update(i, b)) + (if s[i] {
            1int
        } else {
            0int
        }) == count_live(s) + (if b {
            1int
        } else {
            0int
        }),
    decreases s.len(),
{
    let t = s.update(i, b);
    if i == s.len() - 1 {
        assert(t.drop_last() =~= s.drop_last());
        assert(t.last() == b);
        assert(s.last() == s[i]);
    } else {
        assert(t.drop_last() =~= s.drop_last().update(i, b));
        assert(t.last() == s.last());
        lemma_count_live_update(s.drop_last(), i, b);
        assert(s.drop_last()[i] == s[i]);
    }
}

/// An arena counts zero live slots exactly when every slot is free.
pub proof fn lemma_count_live_zero(s: Seq<bool>)
    ensures
        (count_live(s) == 0) <==> (forall|j: int| 0 <= j < s.len() ==> !(#[trigger] s[j])),
    decreases s.len(),
{
    if s.len() > 0 {
        lemma_count_live_zero(s.drop_last());
        assert(forall|j: int| 0 <= j < s.len() - 1 ==> s.drop_last()[j] == s[j]);
        assert(s.last() == s[s.len() - 1]);
    }
}

/// Per-actor execution environment: the current lifecycle state, the
/// observation of outstanding address handles, the arena of spawned work
/// units, and the ghost history of every hook and handler invocation.
///
/// The context is owned by the one executor driving its actor; it is not
/// shared between threads. Work units and address handles are represented by
/// their registration slots: a slot index is the stable handle by which the
/// driver later reports completion or a dropped address. What a unit computes
/// lives outside this core; the context only decides scheduling and lifecycle.
pub struct Context {
    /// Current lifecycle state.
    pub state: ActorState,
    /// Set when the actor asked its own context to stop.
    pub stop_requested: bool,
    /// True exactly while one `handle`/`error` dispatch is running: the
    /// reentrancy guard that makes dispatches mutually exclusive.
    pub in_dispatch: bool,
    /// Set when a work unit or an address is registered while the state is
    /// `Stopping`: the mark that turns `Stopping` back into `Running`.
    pub revived: bool,
    /// Arena of work-unit slots; `true` marks a live unit.
    pub units: Vec<bool>,
    /// Arena of outstanding address-handle slots; `true` marks a live handle.
    pub addrs: Vec<bool>,
    /// Ghost history of every hook and handler invocation.
    pub log: Ghost<Seq<Event>>,
}

impl Context {
    /// Number of work units currently registered.
    pub open spec fn live_units(self) -> nat {
        count_live(self.units@)
    }

    /// Number of address handles currently outstanding.
    pub open spec fn live_addrs(self) -> nat {
        count_live(self.addrs@)
    }

    /// Slot `i` of the work-unit arena holds a live unit.
    pub open spec fn unit_live(self, i: int) -> bool {
        0 <= i < self.units@.len() && self.units@[i]
    }

    /// Slot `i` of the address arena holds a live handle.
    pub open spec fn addr_live(self, i: int) -> bool {
        0 <= i < self.addrs@.len() && self.addrs@[i]
    }

    /// The `Running -> Stopping` trigger: the actor requested a stop, or
    /// neither an address handle nor a work unit keeps it alive. (An actor
    /// holding a live address does not stop merely because it spawned
    /// nothing: both observations must be gone.)
    pub open spec fn stop_triggered(self) -> bool {
        self.stop_requested || (self.live_units() == 0 && self.live_addrs() == 0)
    }

    /// Well-formedness: the history is coherent, and the lifecycle state
    /// agrees with it — a context in `Started` has run nothing yet, a live
    /// one has run its initial hook and not the terminal one, and a stopped
    /// one records the terminal hook as its very last invocation.
    pub open spec fn wf(self) -> bool {
        &&& log_ok(self.log@)
        &&& match self.state {
            ActorState::Started => self.log@.len() == 0,
            ActorState::Running => self.log@.len() > 0 && !has_stopped_event(self.log@),
            ActorState::Stopping => self.log@.len() > 0 && !has_stopped_event(self.log@),
            ActorState::Stopped => self.log@.len() > 0 && self.log@.last() is Stopped,
        }
    }
}

/// What code outside the runtime — lifecycle hooks and message handlers — may
/// do to the context it is handed: use the public operations, which never
/// touch the lifecycle state, the history, or the dispatch guard, and which
/// can set, but never clear, the revival mark and the stop request.
pub open spec fn hook_frame(pre: Context, post: Context) -> bool {
    &&& post.wf()
    &&& post.state == pre.state
    &&& post.in_dispatch == pre.in_dispatch
    &&& post.log@ == pre.log@
    &&& pre.revived ==> post.revived
    &&& pre.stop_requested ==> post.stop_requested
}

/// Register a slot in an arena: reuse a free one, or grow by one at the end.
/// Slot indices of live entries are stable across registrations.
fn alloc_slot(v: &mut Vec<bool>) -> (h: usize)
    ensures
        h < final(v)@.len(),
        final(v)@[h as int],
        count_live(final(v)@) == count_live(old(v)@) + 1,
        (h < old(v)@.len() && !old(v)@[h as int] && final(v)@ == old(v)@.update(h as int, true))
            || (h == old(v)@.len() && final(v)@ == old(v)@.push(true)),
{
    let n = v.len();
    let mut i: usize = 0;
    while i < n
        invariant
            i <= n,
            n == v@.len(),
            v@ == old(v)@,
            forall|j: int| 0 <= j < i ==> #[trigger] v@[j],
        decreases n - i,
    {
        if !v[i] {
            v.set(i, true);
            proof {
                lemma_count_live_update(old(v)@, i as int, true);
            }
            return i;
        }
        i += 1;
    }
    v.push(true);
    proof {
        lemma_count_live_push(old(v)@, true);
    }
    n
}

/// Free the live slot `h` of an arena; all other slots keep their marks.
fn free_slot(v: &mut Vec<bool>, h: usize)
    requires
        h < old(v)@.len(),
        old(v)@[h as int],
    ensures
        final(v)@ == old(v)@.update(h as int, false),
        count_live(final(v)@) + 1 == count_live(old(v)@),
{
    v.set(h, false);
    proof {
        lemma_count_live_update(old(v)@, h as int, false);
    }
}

/// True when some slot of the arena is live.
fn any_live(v: &Vec<bool>) -> (r: bool)
    ensures
        r == (count_live(v@) > 0),
{
    let n = v.len();
    let mut i: usize = 0;
    while i < n
        invariant
            i <= n,
            n == v@.len(),
            forall|j: int| 0 <= j < i ==> !(#[trigger] v@[j]),
        decreases n - i,
    {
        if v[i] {
            proof {
                lemma_count_live_zero(v@);
            }
            return true;
        }
        i += 1;
    }
    proof {
        lemma_count_live_zero(v@);
    }
    false
}

impl Context {
    /// A fresh context for an actor that is about to be scheduled: state
    /// `Started`, no observations, an empty history.
    pub fn new() -> (c: Context)
        ensures
            c.wf(),
            c.state == ActorState::Started,
            !c.stop_requested,
            !c.in_dispatch,
            !c.revived,
            c.units@ == Seq::<bool>::empty(),
            c.addrs@ == Seq::<bool>::empty(),
            c.log@ == Seq::<Event>::empty(),
    {
        Context {
            state: ActorState::Started,
            stop_requested: false,
            in_dispatch: false,
            revived: false,
            units: Vec::new(),
            addrs: Vec::new(),
            log: Ghost(Seq::empty()),
        }
    }

    /// Current lifecycle state, as the actor observes it from inside a hook
    /// or a handler.
    pub fn state(&self) -> (s: ActorState)
        ensures
            s == self.state,
    {
        self.state
    }

    /// Number of work units currently registered.
    pub fn units_count(&self) -> (n: usize)
        ensures
            n == self.live_units(),
    {
        arena_count(&self.units)
    }

    /// Number of address handles currently outstanding.
    pub fn addrs_count(&self) -> (n: usize)
        ensures
            n == self.live_addrs(),
    {
        arena_count(&self.addrs)
    }

    /// The actor asks its own context to stop: one of the triggers for the
    /// `Running -> Stopping` transition, checked on the next poll.
    pub fn stop(&mut self)
        requires
            old(self).wf(),
        ensures
            final(self).wf(),
            final(self).stop_requested,
            final(self).state == old(self).state,
            final(self).in_dispatch == old(self).in_dispatch,
            final(self).revived == old(self).revived,
            final(self).units@ == old(self).units@,
            final(self).addrs@ == old(self).addrs@,
            final(self).log@ == old(self).log@,
    {
        self.stop_requested = true;
    }

    /// Register one work unit and return its stable slot handle.
    ///
    /// On a `Stopped` context the registration is rejected and nothing
    /// changes: a work unit never outlives its context. During `Stopping` a
    /// successful registration sets the revival mark — the restoration path
    /// back to `Running`.
    pub fn spawn(&mut self) -> (r: Option<usize>)
        requires
            old(self).wf(),
        ensures
            final(self).wf(),
            final(self).state == old(self).state,
            final(self).in_dispatch == old(self).in_dispatch,
            final(self).stop_requested == old(self).stop_requested,
            final(self).log@ == old(self).log@,
            final(self).addrs@ == old(self).addrs@,
            old(self).state == ActorState::Stopped ==> r is None && *final(self) == *old(self),
            old(self).state != ActorState::Stopped ==> {
                &&& r is Some
                &&& final(self).unit_live(r->0 as int)
                &&& final(self).live_units() == old(self).live_units() + 1
                &&& forall|j: int| old(self).unit_live(j) ==> final(self).unit_live(j)
                &&& final(self).revived == (old(self).revived || old(self).state
                    == ActorState::Stopping)
            },
    {
        if self.state == ActorState::Stopped {
            return None;
        }
        let h = alloc_slot(&mut self.units);
        if self.state == ActorState::Stopping {
            self.revived = true;
        }
        Some(h)
    }

    /// Hand out one new address handle referencing this actor's mailbox; the
    /// returned slot index is the handle's identity for the later drop
    /// notification. Pure construction, no failure mode — but only a context
    /// that has not been torn down can be referenced, and during `Stopping`
    /// the acquisition sets the revival mark.
    pub fn address(&mut self) -> (h: usize)
        requires
            old(self).wf(),
            old(self).state != ActorState::Stopped,
        ensures
            final(self).wf(),
            final(self).state == old(self).state,
            final(self).in_dispatch == old(self).in_dispatch,
            final(self).stop_requested == old(self).stop_requested,
            final(self).log@ == old(self).log@,
            final(self).units@ == old(self).units@,
            final(self).addr_live(h as int),
            final(self).live_addrs() == old(self).live_addrs() + 1,
            forall|j: int| old(self).addr_live(j) ==> final(self).addr_live(j),
            final(self).revived == (old(self).revived || old(self).state == ActorState::Stopping),
    {
        let h = alloc_slot(&mut self.addrs);
        if self.state == ActorState::Stopping {
            self.revived = true;
        }
        h
    }

    /// The drop notification for address handle `h`: the context now observes
    /// one outstanding handle fewer.
    pub fn address_dropped(&mut self, h: usize)
        requires
            old(self).wf(),
            old(self).addr_live(h as int),
        ensures
            final(self).wf(),
            final(self).state == old(self).state,
            final(self).in_dispatch == old(self).in_dispatch,
            final(self).stop_requested == old(self).stop_requested,
            final(self).revived == old(self).revived,
            final(self).log@ == old(self).log@,
            final(self).units@ == old(self).units@,
            final(self).addrs@ == old(self).addrs@.update(h as int, false),
            final(self).live_addrs() + 1 == old(self).live_addrs(),
    {
        free_slot(&mut self.addrs, h);
    }

    /// Remove work unit `h` from the spawned collection. The runtime calls
    /// this the moment a unit completes — removal is one step with the
    /// completion signal — and a driver may call it for a unit it abandons.
    pub fn remove_unit(&mut self, h: usize)
        requires
            old(self).wf(),
            old(self).unit_live(h as int),
        ensures
            final(self).wf(),
            final(self).state == old(self).state,
            final(self).in_dispatch == old(self).in_dispatch,
            final(self).stop_requested == old(self).stop_requested,
            final(self).revived == old(self).revived,
            final(self).log@ == old(self).log@,
            final(self).addrs@ == old(self).addrs@,
            final(self).units@ == old(self).units@.update(h as int, false),
            final(self).live_units() + 1 == old(self).live_units(),
    {
        free_slot(&mut self.units, h);
    }

    /// Whether slot `h` of the work-unit arena holds a live unit.
    pub fn unit_is_live(&self, h: usize) -> (r: bool)
        ensures
            r == self.unit_live(h as int),
    {
        h < self.units.len() && self.units[h]
    }

    /// True when some work unit is still registered.
    pub fn has_live_units(&self) -> (r: bool)
        ensures
            r == (self.live_units() > 0),
    {
        any_live(&self.units)
    }

    /// True when some address handle is still outstanding.
    pub fn has_live_addrs(&self) -> (r: bool)
        ensures
            r == (self.live_addrs() > 0),
    {
        any_live(&self.addrs)
    }
}

/// Count the live slots of an arena.
fn arena_count(v: &Vec<bool>) -> (n: usize)
    ensures
        n == count_live(v@),
{
    let len = v.len();
    let mut i: usize = 0;
    let mut n: usize = 0;
    proof {
        assert(v@.subrange(0, 0) =~= Seq::<bool>::empty());
    }
    while i < len
        invariant
            i <= len,
            len == v@.len(),
            n == count_live(v@.subrange(0, i as int)),
            n <= i,
        decreases len - i,
    {
        proof {
            assert(v@.subrange(0, i + 1) =~= v@.subrange(0, i as int).push(v@[i as int]));
            lemma_count_live_push(v@.subrange(0, i as int), v@[i as int]);
        }
        if v[i] {
            n += 1;
        }
        i += 1;
    }
    proof {
        assert(v@.subrange(0, len as int) =~= v@);
    }
    n
}

} // verus!
