//! Monitor identity and the liveness registry.
//!
//! A monitor handle is an opaque pointer-sized identity handed out by the
//! native layer. It can be invalidated at any moment by a disconnect, so the
//! registry below tracks the set of identities believed live; every
//! monitor-accepting operation gates on that set before the native layer is
//! ever involved.

use vstd::prelude::*;

verus! {

/// An opaque monitor identity: a non-zero pointer-sized value.
///
/// Equality and ordering are by identity. The identity becomes stale when the
/// monitor is disconnected; `MonitorRegistry::is_monitor_alive` tells whether
/// it is still believed live.
#[derive(Debug, Clone, Copy, Eq, PartialEq, Hash, PartialOrd, Ord, Structural)]
pub struct MonitorId {
    pub inner: u64,
}

impl MonitorId {
    /// Wraps a raw identity; zero means "no monitor" and yields `None`.
    pub fn new(inner: u64) -> (r: Option<Self>)
        ensures
            r == if inner == 0 {
                None::<MonitorId>
            } else {
                (Some(MonitorId { inner }))
            },
    {
        if inner == 0 {
            None
        } else {
            Some(MonitorId { inner })
        }
    }

    /// The raw identity value stored inside.
    pub fn get_ptr(self) -> (r: u64)
        ensures
            r == self.inner,
    {
        self.inner
    }
}

/// The set of monitor identities currently believed live.
///
/// It is populated by enumeration and primary-monitor queries, and pruned by
/// disconnect callbacks and re-enumeration. Its contents are the authority
/// for every liveness gate.
#[derive(Debug)]
pub struct MonitorRegistry {
    live: Vec<u64>,
}

impl MonitorRegistry {
    /// The registry as a set of identities.
    pub closed spec fn view(&self) -> Set<u64> {
        self.live@.to_set()
    }

    /// The registry never stores an identity twice or the zero identity.
    pub closed spec fn wf(&self) -> bool {
        &&& self.live@.no_duplicates()
        &&& !self.live@.contains(0u64)
    }

    /// An empty registry.
    pub fn new() -> (r: Self)
        ensures
            r.wf(),
            r@ == Set::<u64>::empty(),
    {
        let r = MonitorRegistry { live: Vec::new() };
        proof {
            assert(r.live@.to_set() =~= Set::<u64>::empty());
        }
        r
    }

    /// Whether the identity is in the live set. A pure lookup: no native call
    /// is made and no error can arise.
    pub fn is_monitor_alive(&self, monitor: MonitorId) -> (r: bool)
        ensures
            r == self@.contains(monitor.inner),
    {
        let mut i: usize = 0;
        while i < self.live.len()
            invariant
                i <= self.live.len(),
                forall|j: int| 0 <= j < i ==> self.live@[j] != monitor.inner,
            decreases self.live.len() - i,
        {
            if self.live[i] == monitor.inner {
                return true;
            }
            i += 1;
        }
        false
    }

    /// Adds one identity to the live set (used when a query hands a monitor
    /// out). Never removes anything.
    pub fn insert(&mut self, monitor: MonitorId)
        requires
            old(self).wf(),
            monitor.inner != 0,
        ensures
            final(self).wf(),
            final(self)@ == old(self)@.insert(monitor.inner),
    {
        if !self.is_monitor_alive(monitor) {
            proof {
                old(self).live@.lemma_push_to_set_commute(monitor.inner);
            }
            self.live.push(monitor.inner);
        } else {
            proof {
                assert(self@ =~= old(self)@.insert(monitor.inner));
            }
        }
    }

    /// Removes one identity from the live set (used when a disconnect
    /// callback fires).
    pub fn remove(&mut self, monitor: MonitorId)
        requires
            old(self).wf(),
        ensures
            final(self).wf(),
            final(self)@ == old(self)@.remove(monitor.inner),
    {
        let mut out: Vec<u64> = Vec::new();
        let mut i: usize = 0;
        while i < self.live.len()
            invariant
                self == old(self),
                self.wf(),
                i <= self.live.len(),
                out@.no_duplicates(),
                !out@.contains(monitor.inner),
                !out@.contains(0u64),
                out@.to_set() == self.live@.take(i as int).to_set().remove(monitor.inner),
            decreases self.live.len() - i,
        {
            let m = self.live[i];
            proof {
                self.live@.lemma_take_succ_push(i as int);
                self.live@.take(i as int).lemma_push_to_set_commute(m);
                assert(self.live@.take(i + 1).to_set()
                    =~= self.live@.take(i as int).to_set().insert(m));
                assert(forall|j: int| 0 <= j < i ==> self.live@.take(i as int)[j] == self.live@[j]);
                // `m` has not been seen yet, so it is not in `out`
                assert(!self.live@.take(i as int).contains(m));
                assert(self.live@.contains(m));
            }
            if m != monitor.inner {
                proof {
                    assert(!out@.to_set().contains(m));
                    assert(!out@.contains(m));
                    out@.lemma_push_to_set_commute(m);
                }
                out.push(m);
                proof {
                    assert(out@.no_duplicates());
                }
            }
            proof {
                assert(out@.to_set()
                    =~= self.live@.take(i + 1).to_set().remove(monitor.inner));
            }
            i += 1;
        }
        proof {
            assert(self.live@.take(self.live@.len() as int) =~= self.live@);
        }
        self.live = out;
    }

    /// Empties the registry (lifecycle teardown).
    pub fn clear(&mut self)
        ensures
            final(self).wf(),
            final(self)@ == Set::<u64>::empty(),
    {
        self.live.clear();
        proof {
            assert(self.live@.to_set() =~= Set::<u64>::empty());
        }
    }

    /// Rebuilds the registry to exactly the freshly enumerated identities and
    /// reports how many previously tracked identities vanished without a
    /// disconnect callback having fired (a consistency diagnostic, not an
    /// error).
    pub fn replace_all(&mut self, current: &Vec<MonitorId>) -> (vanished: usize)
        requires
            old(self).wf(),
            forall|j: int| 0 <= j < current@.len() ==> current@[j].inner != 0,
        ensures
            final(self).wf(),
            forall|m: u64| #[trigger] final(self)@.contains(m)
                <==> exists|j: int| 0 <= j < current@.len() && current@[j].inner == m,
            (vanished > 0) <==> exists|m: u64|
                #[trigger] old(self)@.contains(m) && !final(self)@.contains(m),
    {
        let mut fresh = MonitorRegistry::new();
        let mut i: usize = 0;
        while i < current.len()
            invariant
                fresh.wf(),
                i <= current.len(),
                forall|j: int| 0 <= j < current@.len() ==> current@[j].inner != 0,
                forall|m: u64| #[trigger] fresh@.contains(m)
                    <==> exists|j: int| 0 <= j < i && current@[j].inner == m,
            decreases current.len() - i,
        {
            let m = current[i];
            fresh.insert(m);
            proof {
                assert(forall|n: u64| #[trigger] fresh@.contains(n)
                    <==> exists|j: int| 0 <= j < i + 1 && current@[j].inner == n);
            }
            i += 1;
        }
        let mut vanished: usize = 0;
        let mut k: usize = 0;
        while k < self.live.len()
            invariant
                fresh.wf(),
                k <= self.live.len(),
                self == old(self),
                vanished <= k,
                (vanished > 0) <==> exists|j: int|
                    0 <= j < k && !fresh@.contains(#[trigger] self.live@[j]),
            decreases self.live.len() - k,
        {
            let m = self.live[k];
            if !fresh.is_monitor_alive(MonitorId { inner: m }) {
                vanished += 1;
            }
            k += 1;
        }
        proof {
            if exists|m: u64| #[trigger] old(self)@.contains(m) && !fresh@.contains(m) {
                let m = choose|m: u64|
                    #[trigger] old(self)@.contains(m) && !fresh@.contains(m);
                let j = choose|j: int| 0 <= j < self.live@.len() && self.live@[j] == m;
                assert(!fresh@.contains(self.live@[j]));
            }
            if exists|j: int| 0 <= j < self.live@.len()
                && !fresh@.contains(#[trigger] self.live@[j]) {
                let j = choose|j: int|
                    0 <= j < self.live@.len() && !fresh@.contains(#[trigger] self.live@[j]);
                assert(old(self)@.contains(self.live@[j]));
            }
        }
        let out = fresh.live;
        self.live = out;
        vanished
    }
}

} // verus!
