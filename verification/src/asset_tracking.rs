//! A queue that tracks which deferred resources are still waiting on
//! their asset dependencies and which have finished loading.
//!
//! Each registered resource is tracked by the plain integer identifier
//! of the asset handle the engine handed out for it. Once per frame the
//! caller polls the engine's asset server for every waiting entry and
//! hands the answers to [`ResourceHandles::process_frame`], which moves
//! the ready entries to the finished list exactly once.

use vstd::prelude::*;

verus! {

/// The entries of `waiting` that stay in the waiting queue after one
/// polling pass whose per-entry readiness answers are `loaded`:
/// exactly the entries reported unready, in their original order.
pub open spec fn still_waiting(waiting: Seq<u64>, loaded: Seq<bool>) -> Seq<u64>
    decreases waiting.len(),
{
    if waiting.len() == 0 {
        Seq::empty()
    } else {
        let rest = still_waiting(waiting.drop_last(), loaded.drop_last());
        if loaded[waiting.len() - 1] {
            rest
        } else {
            rest.push(waiting.last())
        }
    }
}

/// The entries of `waiting` that a polling pass with readiness answers
/// `loaded` moves to the finished list: exactly the entries reported
/// ready, in their original order.
pub open spec fn newly_finished(waiting: Seq<u64>, loaded: Seq<bool>) -> Seq<u64>
    decreases waiting.len(),
{
    if waiting.len() == 0 {
        Seq::empty()
    } else {
        let rest = newly_finished(waiting.drop_last(), loaded.drop_last());
        if loaded[waiting.len() - 1] {
            rest.push(waiting.last())
        } else {
            rest
        }
    }
}

/// The waiting queue and finished list of the deferred-resource loader.
pub struct ResourceHandles {
    waiting: Vec<u64>,
    finished: Vec<u64>,
}

impl ResourceHandles {
    /// The handle identifiers still waiting on their dependencies, in
    /// registration order.
    pub closed spec fn waiting_ids(&self) -> Seq<u64> {
        self.waiting@
    }

    /// The handle identifiers whose resources have been inserted, in
    /// the order they finished.
    pub closed spec fn finished_ids(&self) -> Seq<u64> {
        self.finished@
    }

    /// Returns true if all registered resources have finished loading.
    pub fn is_all_done(&self) -> (r: bool)
        ensures
            r == (self.waiting_ids().len() == 0),
    {
        self.waiting.len() == 0
    }

    /// Queue the handle of a newly requested resource; it waits until a
    /// polling pass reports its dependencies loaded.
    pub fn register(&mut self, handle: u64)
        ensures
            final(self).waiting_ids() == old(self).waiting_ids().push(handle),
            final(self).finished_ids() == old(self).finished_ids(),
    {
        self.waiting.push(handle);
    }

    /// How many registered resources are still waiting.
    pub fn waiting_len(&self) -> (n: usize)
        ensures
            n == self.waiting_ids().len(),
    {
        self.waiting.len()
    }

    /// How many registered resources have finished.
    pub fn finished_len(&self) -> (n: usize)
        ensures
            n == self.finished_ids().len(),
    {
        self.finished.len()
    }

    /// One polling pass over the entries present when the pass starts.
    /// `loaded[i]` is the engine's answer, for the `i`-th waiting entry,
    /// to "are all of this handle's asset dependencies loaded". Entries
    /// reported ready move to the finished list, in queue order; the
    /// others stay waiting, in queue order.
    pub fn process_frame(&mut self, loaded: &Vec<bool>)
        requires
            loaded@.len() == old(self).waiting_ids().len(),
        ensures
            final(self).waiting_ids() == still_waiting(
                old(self).waiting_ids(),
                loaded@,
            ),
            final(self).finished_ids() == old(self).finished_ids() + newly_finished(
                old(self).waiting_ids(),
                loaded@,
            ),
    {
        let ghost w0 = self.waiting@;
        let ghost f0 = self.finished@;
        let n = self.waiting.len();
        let mut kept: Vec<u64> = Vec::new();
        let mut i: usize = 0;
        while i < n
            invariant
                i <= n,
                n == w0.len(),
                loaded@.len() == w0.len(),
                self.waiting@ == w0,
                kept@ == still_waiting(w0.take(i as int), loaded@.take(i as int)),
                self.finished@ == f0 + newly_finished(w0.take(i as int), loaded@.take(i as int)),
            decreases n - i,
        {
            let h = self.waiting[i];
            proof {
                assert(w0.take(i + 1 as int).drop_last() =~= w0.take(i as int));
                assert(loaded@.take(i + 1 as int).drop_last() =~= loaded@.take(i as int));
                assert(w0.take(i + 1 as int).last() == w0[i as int]);
            }
            if loaded[i] {
                self.finished.push(h);
                proof {
                    assert(self.finished@ =~= f0 + newly_finished(
                        w0.take(i + 1 as int),
                        loaded@.take(i + 1 as int),
                    ));
                }
            } else {
                kept.push(h);
            }
            i = i + 1;
        }
        proof {
            assert(w0.take(n as int) =~= w0);
            assert(loaded@.take(n as int) =~= loaded@);
        }
        self.waiting = kept;
    }
}

impl Default for ResourceHandles {
    /// A loader with nothing waiting and nothing finished.
    fn default() -> (h: Self)
        ensures
            h.waiting_ids() == Seq::<u64>::empty(),
            h.finished_ids() == Seq::<u64>::empty(),
    {
        ResourceHandles { waiting: Vec::new(), finished: Vec::new() }
    }
}

/// The "all done" predicate holds of an empty waiting queue, and after a
/// polling pass during which nothing was registered it still holds: the
/// pass keeps none of zero entries waiting.
pub proof fn lemma_all_done_stable(waiting: Seq<u64>, loaded: Seq<bool>)
    requires
        waiting.len() == 0,
        loaded.len() == 0,
    ensures
        still_waiting(waiting, loaded).len() == 0,
        newly_finished(waiting, loaded).len() == 0,
{
}

/// A polling pass hands each waiting entry to exactly one side: the
/// entries it keeps waiting and the entries it moves to the finished
/// list partition the queue, with nothing dropped, duplicated or
/// invented.
pub proof fn lemma_pass_partitions(waiting: Seq<u64>, loaded: Seq<bool>)
    requires
        loaded.len() == waiting.len(),
    ensures
        still_waiting(waiting, loaded).len() + newly_finished(waiting, loaded).len()
            == waiting.len(),
        still_waiting(waiting, loaded).to_multiset().add(
            newly_finished(waiting, loaded).to_multiset(),
        ) == waiting.to_multiset(),
    decreases waiting.len(),
{
    broadcast use vstd::seq_lib::group_to_multiset_ensures;

    let ws = still_waiting(waiting, loaded);
    let nf = newly_finished(waiting, loaded);
    if waiting.len() > 0 {
        let w0 = waiting.drop_last();
        let l0 = loaded.drop_last();
        lemma_pass_partitions(w0, l0);
        assert(waiting =~= w0.push(waiting.last()));
        assert(waiting.to_multiset() == w0.push(waiting.last()).to_multiset());
        if loaded[waiting.len() - 1] {
            assert(nf =~= newly_finished(w0, l0).push(waiting.last()));
            assert(nf.to_multiset() == newly_finished(w0, l0).push(waiting.last()).to_multiset());
        } else {
            assert(ws =~= still_waiting(w0, l0).push(waiting.last()));
            assert(ws.to_multiset() == still_waiting(w0, l0).push(waiting.last()).to_multiset());
        }
        assert(ws.to_multiset().add(nf.to_multiset()) =~= waiting.to_multiset());
    } else {
        assert(ws.to_multiset().add(nf.to_multiset()) =~= waiting.to_multiset());
    }
}

/// A polling pass in which the engine reports every waiting entry as
/// loaded moves every entry, in order, to the finished list and leaves
/// the waiting queue empty.
pub proof fn lemma_pass_all_loaded(waiting: Seq<u64>, loaded: Seq<bool>)
    requires
        loaded.len() == waiting.len(),
        forall|i: int| 0 <= i < loaded.len() ==> loaded[i],
    ensures
        still_waiting(waiting, loaded).len() == 0,
        newly_finished(waiting, loaded) == waiting,
    decreases waiting.len(),
{
    if waiting.len() > 0 {
        lemma_pass_all_loaded(waiting.drop_last(), loaded.drop_last());
        assert(newly_finished(waiting, loaded) =~= waiting);
    } else {
        assert(newly_finished(waiting, loaded) =~= waiting);
    }
}

} // verus!
