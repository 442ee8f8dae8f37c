//! The count of running tasks, and the remote processes that want to hear
//! of it.
//!
//! A process that subscribes hears the count at once and again each time it
//! changes. A process that can no longer be reached is dropped. The handle
//! of a remote process is kept as an opaque value of type `R`.

use std::collections::HashMap;

use vstd::prelude::*;
use vstd::std_specs::hash::spec_hash_map_iter;
use vstd::std_specs::iter::IteratorSpec;

use crate::error::ErrorCode;

verus! {

/// The running count and its listeners.
pub struct RunCountManager<R> {
    count: usize,
    remotes: HashMap<u64, R>,
}

impl<R> RunCountManager<R> {
    /// The number of running tasks last told.
    pub closed spec fn count(self) -> usize {
        self.count
    }

    /// The listening processes, each with its handle.
    pub closed spec fn remotes(self) -> Map<u64, R> {
        self.remotes@
    }

    /// No task running and no listener.
    pub fn new() -> (r: Self)
        ensures
            r.count() == 0,
            r.remotes() == Map::<u64, R>::empty(),
    {
        RunCountManager { count: 0, remotes: HashMap::new() }
    }

    /// The number of running tasks last told.
    pub fn current_count(&self) -> (r: usize)
        ensures
            r == self.count(),
    {
        self.count
    }

    /// Subscribes process `pid`, replacing any handle it had. Gives back the
    /// count the new listener is told at once, and the answer, which is
    /// always success.
    pub fn subscribe_run_count(&mut self, pid: u64, remote: R) -> (r: (i64, ErrorCode))
        ensures
            final(self).count() == old(self).count(),
            final(self).remotes() == old(self).remotes().insert(pid, remote),
            r.0 == old(self).count() as i64,
            r.1 == ErrorCode::ErrOk,
    {
        let told = self.count as i64;
        self.remotes.insert(pid, remote);
        (told, ErrorCode::ErrOk)
    }

    /// Ends the subscription of process `pid`: success when it had one.
    pub fn unsubscribe_run_count(&mut self, pid: u64) -> (r: ErrorCode)
        ensures
            final(self).count() == old(self).count(),
            final(self).remotes() == old(self).remotes().remove(pid),
            r == if old(self).remotes().contains_key(pid) {
                ErrorCode::ErrOk
            } else {
                ErrorCode::Other
            },
    {
        match self.remotes.remove(&pid) {
            Some(_) => ErrorCode::ErrOk,
            None => ErrorCode::Other,
        }
    }

    /// Takes a new count. When it differs from the last, every listener is
    /// told it through `notify`, and those that cannot be reached (for which
    /// `notify` answers `false`) are dropped. The same count changes nothing
    /// and tells no one.
    pub fn change_run_count<F: Fn(&R, i64) -> bool>(&mut self, new_count: usize, notify: F)
        requires
            forall|remote: &R, count: i64| notify.requires((remote, count)),
        ensures
            final(self).count() == new_count,
            old(self).count() == new_count ==> final(self).remotes() == old(self).remotes(),
            old(self).count() != new_count ==> {
                &&& forall|pid: u64| #[trigger]
                    final(self).remotes().contains_key(pid) ==> {
                        &&& old(self).remotes().contains_key(pid)
                        &&& final(self).remotes()[pid] == old(self).remotes()[pid]
                        &&& notify.ensures((&old(self).remotes()[pid], new_count as i64), true)
                    }
                &&& forall|pid: u64| #[trigger]
                    old(self).remotes().contains_key(pid) && !final(self).remotes().contains_key(
                        pid,
                    ) ==> notify.ensures((&old(self).remotes()[pid], new_count as i64), false)
            },
    {
        if self.count == new_count {
            return;
        }
        self.count = new_count;
        let told = new_count as i64;
        let mut unreachable: Vec<u64> = Vec::new();
        let ghost before = self.remotes@;
        let ghost all = spec_hash_map_iter(&self.remotes).remaining();
        let ghost mut seen: int = 0;
        proof {
            broadcast use vstd::std_specs::hash::axiom_spec_hash_map_iter;
        }
        for pair in it: self.remotes.iter()
            invariant
                self.count == new_count,
                self.remotes@ == before,
                all == spec_hash_map_iter(&self.remotes).remaining(),
                it.seq() == all,
                seen == it.index(),
                seen <= all.len(),
                forall|i: int|
                    0 <= i < seen ==> {
                        let k = *(#[trigger] all[i]).0;
                        !unreachable@.contains(k) ==> notify.ensures((&before[k], told), true)
                    },
                forall|remote: &R, count: i64| notify.requires((remote, count)),
                forall|j: int|
                    0 <= j < unreachable@.len() ==> {
                        &&& before.contains_key(#[trigger] unreachable@[j])
                        &&& notify.ensures((&before[unreachable@[j]], told), false)
                    },
        {
            let (pid, remote) = pair;
            proof {
                assert(pair == all[seen]);
                assert(before.contains_key(*pid) && before[*pid] == *remote);
            }
            let ghost earlier = unreachable@;
            let reached = notify(remote, told);
            if !reached {
                unreachable.push(*pid);
            }
            proof {
                assert forall|k: u64| earlier.contains(k) implies unreachable@.contains(k) by {
                    let j = choose|j: int| 0 <= j < earlier.len() && #[trigger] earlier[j] == k;
                    assert(unreachable@[j] == k);
                }
                if reached {
                    assert(notify.ensures((&before[*pid], told), true));
                } else {
                    assert(unreachable@[unreachable@.len() - 1] == *pid);
                    assert(unreachable@.contains(*pid));
                }
                seen = seen + 1;
            }
        }
        proof {
            assert forall|k: u64| before.contains_key(k) && !unreachable@.contains(k) implies
                notify.ensures((&before[k], told), true) by {
                assert(all.contains((&k, &before[k])));
                let i = choose|i: int| 0 <= i < all.len() && #[trigger] all[i] == (&k, &before[k]);
                assert(*all[i].0 == k);
            }
        }
        let ghost dropped = unreachable@;
        let mut i: usize = 0;
        while i < unreachable.len()
            invariant
                self.count == new_count,
                i <= unreachable@.len(),
                dropped == unreachable@,
                forall|k: u64|
                    #[trigger] self.remotes@.contains_key(k) <==> before.contains_key(k)
                        && !dropped.take(i as int).contains(k),
                forall|k: u64| #[trigger] self.remotes@.contains_key(k) ==> self.remotes@[k] == before[k],
            decreases unreachable@.len() - i,
        {
            self.remotes.remove(&unreachable[i]);
            proof {
                assert forall|k: u64| dropped.take(i + 1).contains(k) <==> (dropped.take(
                    i as int,
                ).contains(k) || k == dropped[i as int]) by {
                    if dropped.take(i + 1).contains(k) {
                        let j = choose|j: int| 0 <= j < i + 1 && #[trigger] dropped.take(i + 1)[j] == k;
                        if j < i {
                            assert(dropped.take(i as int)[j] == k);
                        }
                    }
                    if dropped.take(i as int).contains(k) {
                        let j = choose|j: int| 0 <= j < i && #[trigger] dropped.take(i as int)[j] == k;
                        assert(dropped.take(i + 1)[j] == k);
                    }
                    if k == dropped[i as int] {
                        assert(dropped.take(i + 1)[i as int] == k);
                    }
                }
            }
            i = i + 1;
        }
        proof {
            assert(dropped.take(dropped.len() as int) =~= dropped);
            assert forall|pid: u64| #[trigger] self.remotes@.contains_key(pid) implies {
                &&& before.contains_key(pid)
                &&& self.remotes@[pid] == before[pid]
                &&& notify.ensures((&before[pid], told), true)
            } by {
                assert(!dropped.take(dropped.len() as int).contains(pid));
            }
        }
    }
}

} // verus!
