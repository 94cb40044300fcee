//! The subscription registry for change notification.
//!
//! Callbacks on the one designated metadata path are registered here
//! under fresh identifiers. Disposing a subscription unregisters
//! exactly that identifier: every other subscription on the same path
//! stays registered. The detection mechanism that invokes the
//! callbacks is an external collaborator and holds the callbacks
//! themselves, keyed by these identifiers.

use vstd::prelude::*;

verus! {

/// The registry of live subscriptions on the watched path: each holds
/// a distinct identifier handed out at registration.
pub struct WatchRegistry {
    next_id: u64,
    active: Vec<u64>,
}

impl WatchRegistry {
    /// The set of subscription identifiers currently registered.
    pub closed spec fn ids(&self) -> Set<u64> {
        Set::new(|x: u64| self.active@.contains(x))
    }

    /// Every live identifier was handed out before the next one to
    /// be handed out, and no identifier is registered twice.
    pub closed spec fn wf(&self) -> bool {
        &&& forall|i: int| 0 <= i < self.active@.len() ==> self.active@[i] < self.next_id
        &&& forall|i: int, j: int|
            0 <= i < j < self.active@.len() ==> self.active@[i] != self.active@[j]
    }

    /// Whether there is room to hand out one more identifier.
    pub closed spec fn can_register(&self) -> bool {
        self.next_id < u64::MAX
    }

    /// An empty registry: no subscription is live.
    pub fn new() -> (r: WatchRegistry)
        ensures
            r.wf(),
            r.ids() == Set::<u64>::empty(),
            r.can_register(),
    {
        let r = WatchRegistry { next_id: 0, active: Vec::new() };
        proof {
            assert(r.ids() =~= Set::<u64>::empty());
        }
        r
    }

    /// Whether there is room to hand out one more identifier, as an
    /// executable test: a caller checks this before registering.
    pub fn can_register_now(&self) -> (b: bool)
        ensures
            b == self.can_register(),
    {
        self.next_id < u64::MAX
    }

    /// Registers one new subscription: the returned identifier is
    /// fresh, and every previously live subscription stays live.
    pub fn register(&mut self) -> (id: u64)
        requires
            old(self).wf(),
            old(self).can_register(),
        ensures
            final(self).wf(),
            !old(self).ids().contains(id),
            final(self).ids() == old(self).ids().insert(id),
    {
        let id = self.next_id;
        self.next_id = self.next_id + 1;
        self.active.push(id);
        proof {
            assert(!old(self).ids().contains(id)) by {
                if old(self).active@.contains(id) {
                    let i = choose|i: int|
                        0 <= i < old(self).active@.len() && old(self).active@[i] == id;
                    assert(old(self).active@[i] < id);
                }
            }
            assert forall|x: u64|
                self.ids().contains(x) <==> old(self).ids().insert(id).contains(x) by {
                if self.active@.contains(x) {
                    let i = choose|i: int| 0 <= i < self.active@.len() && self.active@[i] == x;
                    if i < old(self).active@.len() {
                        assert(old(self).active@[i] == x);
                    }
                }
                if old(self).active@.contains(x) {
                    let i = choose|i: int|
                        0 <= i < old(self).active@.len() && old(self).active@[i] == x;
                    assert(self.active@[i] == x);
                }
                if x == id {
                    assert(self.active@[self.active@.len() - 1] == id);
                }
            }
            assert(self.ids() =~= old(self).ids().insert(id));
        }
        id
    }

    /// Unregisters the subscription with the given identifier, if it
    /// is live: exactly that identifier goes away, and every other
    /// live subscription is unaffected.
    pub fn unregister(&mut self, id: u64)
        requires
            old(self).wf(),
        ensures
            final(self).wf(),
            final(self).ids() == old(self).ids().remove(id),
    {
        let mut i: usize = 0;
        while i < self.active.len()
            invariant
                old(self).wf(),
                self.active@ == old(self).active@,
                self.next_id == old(self).next_id,
                i <= self.active@.len(),
                forall|j: int| 0 <= j < i ==> self.active@[j] != id,
            decreases self.active@.len() - i,
        {
            if self.active[i] == id {
                let ghost a = self.active@;
                let ghost pos = i as int;
                self.active.remove(i);
                proof {
                    a.remove_ensures(pos);
                    let n = self.active@;
                    assert forall|x: u64| n.contains(x) <==> (a.contains(x) && x != id) by {
                        if n.contains(x) {
                            let j = choose|j: int| 0 <= j < n.len() && n[j] == x;
                            if j < pos {
                                assert(a[j] == x);
                                assert(x != id);
                            } else {
                                assert(a[j + 1] == x);
                                if x == id {
                                    assert(a[pos] == a[j + 1]);
                                }
                                assert(x != id);
                            }
                        }
                        if a.contains(x) && x != id {
                            let k = choose|k: int| 0 <= k < a.len() && a[k] == x;
                            if k < pos {
                                assert(n[k] == x);
                            } else {
                                assert(n[k - 1] == a[k]);
                            }
                        }
                    }
                    assert forall|j: int| 0 <= j < n.len() implies n[j] < self.next_id by {
                        if j < pos {
                            assert(n[j] == a[j]);
                        } else {
                            assert(n[j] == a[j + 1]);
                        }
                    }
                    assert forall|j: int, k: int| 0 <= j < k < n.len() implies n[j] != n[k] by {
                        let j2 = if j < pos { j } else { j + 1 };
                        let k2 = if k < pos { k } else { k + 1 };
                        assert(n[j] == a[j2]);
                        assert(n[k] == a[k2]);
                    }
                    assert(self.ids() =~= old(self).ids().remove(id));
                }
                return ;
            }
            i = i + 1;
        }
        proof {
            assert(!old(self).ids().contains(id)) by {
                if self.active@.contains(id) {
                    let j = choose|j: int|
                        0 <= j < self.active@.len() && self.active@[j] == id;
                }
            }
            assert(self.ids() =~= old(self).ids().remove(id));
        }
    }

    /// Whether the subscription with the given identifier is live.
    pub fn contains(&self, id: u64) -> (b: bool)
        ensures
            b == self.ids().contains(id),
    {
        let mut i: usize = 0;
        while i < self.active.len()
            invariant
                i <= self.active@.len(),
                forall|j: int| 0 <= j < i ==> self.active@[j] != id,
            decreases self.active@.len() - i,
        {
            if self.active[i] == id {
                return true;
            }
            i = i + 1;
        }
        proof {
            if self.active@.contains(id) {
                let j = choose|j: int| 0 <= j < self.active@.len() && self.active@[j] == id;
            }
        }
        false
    }
}

} // verus!
