//! Single-flight guards: one flag for the bulk pass and a set of entry ids
//! being imported. Each operation is one atomic step on this state; callers
//! that share a guard across threads hold it behind one lock.

use std::collections::HashSet;
use vstd::prelude::*;

verus! {

broadcast use vstd::std_specs::hash::group_hash_axioms;

pub struct ImportGuards {
    bulk_running: bool,
    entries_running: HashSet<u64>,
}

/// Result and next set of one `try_lock_entry` step.
pub open spec fn lock_step(running: Set<u64>, id: u64) -> (bool, Set<u64>) {
    if running.contains(id) {
        (false, running)
    } else {
        (true, running.insert(id))
    }
}

/// Results of `n` lock attempts on `id`, one after another, from `running`.
pub open spec fn lock_results(running: Set<u64>, id: u64, n: nat) -> Seq<bool>
    decreases n,
{
    if n == 0 {
        Seq::empty()
    } else {
        let (ok, next) = lock_step(running, id);
        seq![ok] + lock_results(next, id, (n - 1) as nat)
    }
}

impl ImportGuards {
    pub closed spec fn bulk(&self) -> bool {
        self.bulk_running
    }

    pub closed spec fn running(&self) -> Set<u64> {
        self.entries_running@
    }

    pub fn new() -> (r: ImportGuards)
        ensures
            !r.bulk(),
            r.running() == Set::<u64>::empty(),
    {
        ImportGuards { bulk_running: false, entries_running: HashSet::new() }
    }

    /// Raises the bulk flag when it is down; `false`, and no change, when a
    /// bulk pass is already running.
    pub fn try_start_bulk(&mut self) -> (r: bool)
        ensures
            r == !old(self).bulk(),
            final(self).bulk(),
            final(self).running() == old(self).running(),
    {
        if self.bulk_running {
            false
        } else {
            self.bulk_running = true;
            true
        }
    }

    /// Lowers the bulk flag.
    pub fn finish_bulk(&mut self)
        ensures
            !final(self).bulk(),
            final(self).running() == old(self).running(),
    {
        self.bulk_running = false;
    }

    /// Adds `id` to the running set when absent: see `lock_step`.
    pub fn try_lock_entry(&mut self, id: u64) -> (r: bool)
        ensures
            (r, final(self).running()) == lock_step(old(self).running(), id),
            final(self).bulk() == old(self).bulk(),
    {
        if self.entries_running.contains(&id) {
            false
        } else {
            self.entries_running.insert(id);
            true
        }
    }

    /// Removes `id` from the running set.
    pub fn release_entry(&mut self, id: u64)
        ensures
            final(self).running() == old(self).running().remove(id),
            final(self).bulk() == old(self).bulk(),
    {
        self.entries_running.remove(&id);
    }
}

impl Default for ImportGuards {
    fn default() -> (r: Self)
        ensures
            !r.bulk(),
            r.running() == Set::<u64>::empty(),
    {
        ImportGuards::new()
    }
}

/// Of any number of lock attempts on a free id, exactly the first succeeds
/// and every later one fails while the lock is held.
pub proof fn lemma_single_winner(running: Set<u64>, id: u64, n: nat)
    requires
        !running.contains(id),
        n >= 1,
    ensures
        lock_results(running, id, n)[0],
        forall|i: int| 1 <= i < n ==> !#[trigger] lock_results(running, id, n)[i],
        lock_results(running, id, n).len() == n,
{
    let next = running.insert(id);
    lemma_all_fail(next, id, (n - 1) as nat);
    assert(lock_results(running, id, n) == seq![true] + lock_results(next, id, (n - 1) as nat));
}

/// While `id` is held, every attempt on it fails.
pub proof fn lemma_all_fail(running: Set<u64>, id: u64, n: nat)
    requires
        running.contains(id),
    ensures
        lock_results(running, id, n).len() == n,
        forall|i: int| 0 <= i < n ==> !#[trigger] lock_results(running, id, n)[i],
    decreases n,
{
    if n > 0 {
        lemma_all_fail(running, id, (n - 1) as nat);
        assert(lock_results(running, id, n) == seq![false] + lock_results(
            running,
            id,
            (n - 1) as nat,
        ));
    }
}

/// After a release, the next attempt on the same id succeeds again.
pub proof fn lemma_release_reopens(running: Set<u64>, id: u64)
    ensures
        lock_step(running.remove(id), id).0,
{
}

} // verus!
