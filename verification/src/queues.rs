//! The pending task queues and waker: two host-visible collections of
//! in-flight asynchronous units — kept-alive and not-kept-alive — plus the
//! signal that tells the host loop new work exists.

use vstd::prelude::*;
use crate::envelope::Envelope;
use crate::outcome::PendingUnit;
use crate::payload::PromiseId;

verus! {

/// Which pending queue a unit is filed into.
#[derive(Debug, Clone, Copy, PartialEq, Eq, Structural)]
pub enum QueueKind {
    /// The unit's completion must be awaited before the host loop may idle.
    KeptAlive,
    /// The unit must not keep the host loop from exiting.
    NotKeptAlive,
}

/// A unit once the native work behind it has finished: identical but for
/// the readiness mark.
pub open spec fn completed_unit(u: PendingUnit) -> PendingUnit {
    PendingUnit { promise_id: u.promise_id, envelope: u.envelope, ready: true }
}

/// A queue after the native work for every unit filed under the given
/// correlation identifier has finished.
pub open spec fn marked_ready(s: Seq<PendingUnit>, pid: PromiseId) -> Seq<PendingUnit> {
    s.map_values(
        |u: PendingUnit|
            if u.promise_id == pid {
                completed_unit(u)
            } else {
                u
            },
    )
}

/// The units of a queue whose native work has finished, in arrival order.
pub open spec fn ready_units(s: Seq<PendingUnit>) -> Seq<PendingUnit> {
    s.filter(|u: PendingUnit| u.ready)
}

/// The units of a queue still awaiting their native work, in arrival order.
pub open spec fn still_pending(s: Seq<PendingUnit>) -> Seq<PendingUnit> {
    s.filter(|u: PendingUnit| !u.ready)
}

/// The completion pair a unit delivers when drained.
pub open spec fn completion_of(u: PendingUnit) -> (PromiseId, Envelope) {
    (u.promise_id, u.envelope)
}

/// The completion pairs a drain must deliver for a queue: one per finished
/// unit, in arrival order.
pub open spec fn completions(s: Seq<PendingUnit>) -> Seq<(PromiseId, Envelope)> {
    ready_units(s).map_values(|u: PendingUnit| completion_of(u))
}

/// The pending task queues of one engine session, plus the waker signal the
/// host loop observes to avoid busy-polling.
pub struct OpsQueues {
    ref_units: Vec<PendingUnit>,
    unref_units: Vec<PendingUnit>,
    waker_signaled: bool,
}

impl OpsQueues {
    /// The kept-alive units currently outstanding, in arrival order.
    pub closed spec fn kept(self) -> Seq<PendingUnit> {
        self.ref_units@
    }

    /// The not-kept-alive units currently outstanding, in arrival order.
    pub closed spec fn unkept(self) -> Seq<PendingUnit> {
        self.unref_units@
    }

    /// Whether the waker has been signalled since the host loop last
    /// observed it.
    pub closed spec fn waker(self) -> bool {
        self.waker_signaled
    }

    /// Whether the host loop may consider itself idle and exit: only the
    /// kept-alive queue's occupancy matters; the not-kept-alive queue's
    /// never factors in.
    pub open spec fn may_idle_exit(self) -> bool {
        self.kept().len() == 0
    }

    /// A fresh session: both queues empty, waker quiet.
    pub fn new() -> (q: OpsQueues)
        ensures
            q.kept() == Seq::<PendingUnit>::empty(),
            q.unkept() == Seq::<PendingUnit>::empty(),
            !q.waker(),
    {
        OpsQueues { ref_units: Vec::new(), unref_units: Vec::new(), waker_signaled: false }
    }

    /// Files a unit into the chosen queue and signals the waker, so the
    /// host loop's next scheduling decision observes the new work without a
    /// polling delay.
    pub fn enqueue(&mut self, unit: PendingUnit, kind: QueueKind)
        ensures
            kind == QueueKind::KeptAlive ==> final(self).kept() == old(self).kept().push(unit)
                && final(self).unkept() == old(self).unkept(),
            kind == QueueKind::NotKeptAlive ==> final(self).unkept() == old(self).unkept().push(
                unit,
            ) && final(self).kept() == old(self).kept(),
            final(self).waker(),
    {
        match kind {
            QueueKind::KeptAlive => self.ref_units.push(unit),
            QueueKind::NotKeptAlive => self.unref_units.push(unit),
        }
        self.waker_signaled = true;
    }

    /// Records that the native work behind every unit filed under this
    /// correlation identifier has finished; the units stay in place until
    /// the next drain.
    pub fn set_ready(&mut self, pid: PromiseId)
        ensures
            final(self).kept() == marked_ready(old(self).kept(), pid),
            final(self).unkept() == marked_ready(old(self).unkept(), pid),
            final(self).waker() == old(self).waker(),
    {
        mark_all(&mut self.ref_units, pid);
        mark_all(&mut self.unref_units, pid);
    }

    /// Polls all outstanding units: removes and returns every finished one
    /// as its (correlation identifier, envelope) pair — kept-alive queue
    /// first, each queue in arrival order — leaving unfinished units in
    /// place. Safe to call repeatedly: a finished unit is returned by
    /// exactly one call and an unfinished one is never dropped.
    pub fn drain_ready(&mut self) -> (done: Vec<(PromiseId, Envelope)>)
        ensures
            done@ == completions(old(self).kept()) + completions(old(self).unkept()),
            final(self).kept() == still_pending(old(self).kept()),
            final(self).unkept() == still_pending(old(self).unkept()),
            final(self).waker() == old(self).waker(),
    {
        let mut done: Vec<(PromiseId, Envelope)> = Vec::new();
        drain_vec(&mut self.ref_units, &mut done);
        drain_vec(&mut self.unref_units, &mut done);
        proof {
            assert(done@ =~= completions(old(self).kept()) + completions(old(self).unkept()));
        }
        done
    }

    /// Observes and clears the waker signal; touches neither queue.
    pub fn take_waker(&mut self) -> (r: bool)
        ensures
            r == old(self).waker(),
            !final(self).waker(),
            final(self).kept() == old(self).kept(),
            final(self).unkept() == old(self).unkept(),
    {
        let r = self.waker_signaled;
        self.waker_signaled = false;
        r
    }

    /// Whether the host loop may consider itself idle and exit right now.
    pub fn can_idle_exit(&self) -> (r: bool)
        ensures
            r == self.may_idle_exit(),
    {
        self.ref_units.len() == 0
    }

    /// The number of kept-alive units currently outstanding.
    pub fn kept_len(&self) -> (n: usize)
        ensures
            n == self.kept().len(),
    {
        self.ref_units.len()
    }

    /// The number of not-kept-alive units currently outstanding.
    pub fn unkept_len(&self) -> (n: usize)
        ensures
            n == self.unkept().len(),
    {
        self.unref_units.len()
    }
}

/// Marks every unit of one queue filed under the given identifier as
/// finished, in place.
fn mark_all(v: &mut Vec<PendingUnit>, pid: PromiseId)
    ensures
        final(v)@ == marked_ready(old(v)@, pid),
{
    let mut i: usize = 0;
    while i < v.len()
        invariant
            i <= v@.len(),
            v@.len() == old(v)@.len(),
            forall|j: int| 0 <= j < i ==> v@[j] == marked_ready(old(v)@, pid)[j],
            forall|j: int| i <= j < v@.len() ==> v@[j] == old(v)@[j],
        decreases v@.len() - i,
    {
        let u = v.remove(i);
        let ghost pre = v@.insert(i as int, u);
        let PendingUnit { promise_id, envelope, ready } = u;
        let nready = if promise_id == pid {
            true
        } else {
            ready
        };
        v.insert(i, PendingUnit { promise_id, envelope, ready: nready });
        proof {
            assert(v@ =~= pre.update(i as int, (PendingUnit {
                promise_id,
                envelope,
                ready: nready,
            })));
        }
        i = i + 1;
    }
    proof {
        assert(v@ =~= marked_ready(old(v)@, pid));
    }
}

/// How one more unit changes a queue's completions and leftovers: a
/// finished unit adds its pair and nothing stays; an unfinished one adds
/// nothing and stays.
proof fn lemma_queue_step(s: Seq<PendingUnit>, u: PendingUnit)
    ensures
        u.ready ==> still_pending(s.push(u)) == still_pending(s) && completions(s.push(u))
            == completions(s).push(completion_of(u)),
        !u.ready ==> still_pending(s.push(u)) == still_pending(s).push(u) && completions(s.push(u))
            == completions(s),
{
    broadcast use Seq::lemma_filter_push;

    if u.ready {
        assert(ready_units(s.push(u)) == ready_units(s).push(u));
        assert(completions(s.push(u)) =~= completions(s).push(completion_of(u)));
    } else {
        assert(ready_units(s.push(u)) == ready_units(s));
    }
}

/// Moves every finished unit of one queue out as its completion pair,
/// appending to the output in arrival order, and leaves exactly the
/// unfinished units in place, in arrival order.
fn drain_vec(v: &mut Vec<PendingUnit>, out: &mut Vec<(PromiseId, Envelope)>)
    ensures
        final(v)@ == still_pending(old(v)@),
        final(out)@ == old(out)@ + completions(old(v)@),
{
    broadcast use Seq::lemma_filter_push, Seq::lemma_push_map_commute, Seq::push_distributes_over_add;

    let ghost s0 = v@;
    let ghost out0 = out@;
    let mut kept_back: Vec<PendingUnit> = Vec::new();
    let ghost mut i: int = 0;
    while v.len() > 0
        invariant
            0 <= i <= s0.len(),
            v@ == s0.skip(i),
            kept_back@ == still_pending(s0.take(i)),
            out@ == out0 + completions(s0.take(i)),
        decreases v@.len(),
    {
        let u = v.remove(0);
        proof {
            assert(u == s0[i]);
            assert(v@ =~= s0.skip(i + 1));
            assert(s0.take(i + 1) =~= s0.take(i).push(u));
            lemma_queue_step(s0.take(i), u);
        }
        if u.ready {
            let PendingUnit { promise_id, envelope, ready: _ } = u;
            out.push((promise_id, envelope));
            proof {
                assert(out@ =~= out0 + completions(s0.take(i + 1)));
            }
        } else {
            kept_back.push(u);
        }
        proof {
            i = i + 1;
        }
    }
    proof {
        assert(s0.take(i) =~= s0);
    }
    *v = kept_back;
}

/// Law: draining partitions the outstanding units. The completions a drain
/// returns are exactly one pair per finished unit, and the finished and
/// unfinished units together account for every outstanding unit — so each
/// unit's completion is observable exactly once, and never lost.
pub proof fn lemma_drain_exactly_once(s: Seq<PendingUnit>)
    ensures
        completions(s).len() == ready_units(s).len(),
        forall|i: int|
            0 <= i < completions(s).len() ==> completions(s)[i] == completion_of(
                #[trigger] ready_units(s)[i],
            ),
        ready_units(s).to_multiset().add(still_pending(s).to_multiset()) == s.to_multiset(),
    decreases s.len(),
{
    broadcast use vstd::seq_lib::group_to_multiset_ensures;

    reveal(Seq::filter);
    if s.len() == 0 {
        assert(ready_units(s).to_multiset().add(still_pending(s).to_multiset()) =~= s.to_multiset());
    } else {
        let butlast = s.drop_last();
        let last = s.last();
        lemma_drain_exactly_once(butlast);
        assert(s =~= butlast.push(last));
        if last.ready {
            assert(ready_units(s) =~= ready_units(butlast).push(last));
            assert(still_pending(s) =~= still_pending(butlast));
        } else {
            assert(ready_units(s) =~= ready_units(butlast));
            assert(still_pending(s) =~= still_pending(butlast).push(last));
        }
        assert(ready_units(s).to_multiset().add(still_pending(s).to_multiset()) =~= s.to_multiset());
    }
}

/// Law: idle-exit eligibility depends on the kept-alive queue alone — two
/// sessions with the same kept-alive units agree on it, whatever their
/// not-kept-alive queues and wakers hold.
pub proof fn lemma_idle_exit_ignores_unkept(q1: OpsQueues, q2: OpsQueues)
    requires
        q1.kept() == q2.kept(),
    ensures
        q1.may_idle_exit() == q2.may_idle_exit(),
{
}

/// Law: a kept-alive unit still outstanding makes the host loop ineligible
/// to idle-exit.
pub proof fn lemma_kept_unit_blocks_idle_exit(q: OpsQueues)
    requires
        q.kept().len() > 0,
    ensures
        !q.may_idle_exit(),
{
}

} // verus!
