//! The server-side client registry: which client ids are live, and how ids
//! are issued and recycled.
//!
//! Ids come from a monotonically increasing counter together with a FIFO
//! free-list of ids released by disconnected clients.  A new connection takes
//! the oldest freed id if there is one, and a fresh counter value otherwise;
//! a disconnecting client pushes its id onto the back of the free-list.  The
//! registry's invariant keeps live ids unique, so no two simultaneously live
//! clients ever observe the same id.

use std::collections::VecDeque;
use vstd::prelude::*;

verus! {

/// Tracks the live client ids of one server together with the id pool: the
/// highest id issued so far and the FIFO free-list of reclaimable ids.
pub struct ClientRegistry {
    next_id: u32,
    freed: VecDeque<u32>,
    live: Vec<u32>,
}

impl ClientRegistry {
    /// The ids of the currently connected clients, in connection order.
    pub closed spec fn live_ids(&self) -> Seq<u32> {
        self.live@
    }

    /// The freed ids waiting to be reused, oldest first.
    pub closed spec fn freed_ids(&self) -> Seq<u32> {
        self.freed@
    }

    /// The highest id issued so far; ids count up from 1.
    pub closed spec fn highest_id(&self) -> u32 {
        self.next_id
    }

    /// The registry's invariant: live ids are unique, freed ids are unique,
    /// no id is both live and freed, and every id ever issued lies between 1
    /// and the counter.
    pub closed spec fn wf(&self) -> bool {
        &&& self.live@.no_duplicates()
        &&& self.freed@.no_duplicates()
        &&& forall|id: u32| !(self.live@.contains(id) && self.freed@.contains(id))
        &&& forall|i: int|
            0 <= i < self.live@.len() ==> 1 <= #[trigger] self.live@[i] <= self.next_id
        &&& forall|i: int|
            0 <= i < self.freed@.len() ==> 1 <= #[trigger] self.freed@[i] <= self.next_id
    }

    /// A fresh registry: no client yet, nothing to reuse, ids start at 1.
    pub fn new() -> (r: ClientRegistry)
        ensures
            r.wf(),
            r.live_ids() == Seq::<u32>::empty(),
            r.freed_ids() == Seq::<u32>::empty(),
            r.highest_id() == 0,
    {
        ClientRegistry { next_id: 0, freed: VecDeque::new(), live: Vec::new() }
    }

    /// Register a new connection and return its id: the oldest freed id if
    /// any is waiting, a fresh counter value otherwise.  The id is not live
    /// before the call — no two live clients share an id.
    pub fn connect(&mut self) -> (id: u32)
        requires
            old(self).wf(),
            old(self).highest_id() < u32::MAX,
        ensures
            final(self).wf(),
            !old(self).live_ids().contains(id),
            final(self).live_ids() == old(self).live_ids().push(id),
            old(self).freed_ids().len() > 0 ==> {
                &&& id == old(self).freed_ids()[0]
                &&& final(self).freed_ids() == old(self).freed_ids().drop_first()
                &&& final(self).highest_id() == old(self).highest_id()
            },
            old(self).freed_ids().len() == 0 ==> {
                &&& id == old(self).highest_id() + 1
                &&& final(self).freed_ids() == old(self).freed_ids()
                &&& final(self).highest_id() == old(self).highest_id() + 1
            },
    {
        let ghost l0 = self.live@;
        let ghost f0 = self.freed@;
        let id = match self.freed.pop_front() {
            Some(id) => id,
            None => {
                self.next_id = self.next_id + 1;
                self.next_id
            },
        };
        proof {
            if f0.len() > 0 {
                assert(f0.contains(f0[0]));
                assert(!l0.contains(id));
                assert(self.freed@ =~= f0.drop_first());
            } else {
                // a fresh id is above every bound the invariant gives
                assert(!l0.contains(id)) by {
                    if l0.contains(id) {
                        let k = choose|k: int| 0 <= k < l0.len() && l0[k] == id;
                        assert(l0[k] <= old(self).next_id);
                    }
                }
            }
        }
        self.live.push(id);
        proof {
            let l1 = self.live@;
            let f1 = self.freed@;
            assert forall|i: int, j: int|
                0 <= i < l1.len() && 0 <= j < l1.len() && i != j implies l1[i] != l1[j] by {
                if i < l0.len() && j < l0.len() {
                    assert(l0[i] != l0[j]);
                } else if i < l0.len() {
                    assert(l1[j] == id && l0.contains(l0[i]));
                } else if j < l0.len() {
                    assert(l1[i] == id && l0.contains(l0[j]));
                }
            }
            assert forall|x: u32| !(l1.contains(x) && f1.contains(x)) by {
                if l1.contains(x) && f1.contains(x) {
                    let i = choose|i: int| 0 <= i < l1.len() && l1[i] == x;
                    let j = choose|j: int| 0 <= j < f1.len() && f1[j] == x;
                    if f0.len() > 0 {
                        assert(f1[j] == f0[j + 1]);
                        assert(f0.contains(x));
                        if i < l0.len() {
                            assert(l0.contains(x));
                        } else {
                            assert(x == id && f0[0] == id);
                        }
                    } else {
                        assert(f0.contains(x));
                        if i < l0.len() {
                            assert(l0.contains(x));
                        }
                    }
                }
            }
            assert forall|i: int| 0 <= i < f1.len() implies 1 <= #[trigger] f1[i] <= self.next_id by {
                if f0.len() > 0 {
                    assert(f1[i] == f0[i + 1]);
                    assert(f0.contains(f0[i + 1]));
                } else {
                    assert(f0.contains(f0[i]));
                }
            }
            assert forall|i: int| 0 <= i < l1.len() implies 1 <= #[trigger] l1[i] <= self.next_id by {
                if i < l0.len() {
                    assert(l0.contains(l0[i]));
                    assert(1 <= l0[i] <= old(self).next_id);
                }
            }
        }
        id
    }

    /// Deregister a disconnected client: its id leaves the live set and joins
    /// the back of the free-list, available for reuse by a later connection.
    pub fn disconnect(&mut self, id: u32)
        requires
            old(self).wf(),
            old(self).live_ids().contains(id),
        ensures
            final(self).wf(),
            final(self).live_ids() == old(self).live_ids().remove(
                old(self).live_ids().index_of(id),
            ),
            !final(self).live_ids().contains(id),
            final(self).freed_ids() == old(self).freed_ids().push(id),
            final(self).highest_id() == old(self).highest_id(),
    {
        let ghost l0 = self.live@;
        let ghost f0 = self.freed@;
        let i = self.find_live(id);
        let ghost pos = i as int;
        proof {
            l0.remove_ensures(pos);
            assert(l0.index_of(id) == pos) by {
                let k = l0.index_of(id);
                assert(l0.contains(id));
                assert(0 <= k < l0.len() && l0[k] == id);
            }
        }
        self.live.remove(i);
        self.freed.push_back(id);
        proof {
            let l1 = self.live@;
            let f1 = self.freed@;
            assert(!f0.contains(id));
            assert forall|i: int, j: int|
                0 <= i < l1.len() && 0 <= j < l1.len() && i != j implies l1[i] != l1[j] by {
                let i0: int = if i < pos { i } else { i + 1 };
                let j0: int = if j < pos { j } else { j + 1 };
                assert(l1[i] == l0[i0] && l1[j] == l0[j0]);
            }
            assert forall|i: int, j: int|
                0 <= i < f1.len() && 0 <= j < f1.len() && i != j implies f1[i] != f1[j] by {
                if i < f0.len() && j < f0.len() {
                    assert(f0[i] != f0[j]);
                } else if i < f0.len() {
                    assert(f1[j] == id && f0.contains(f0[i]));
                } else if j < f0.len() {
                    assert(f1[i] == id && f0.contains(f0[j]));
                }
            }
            assert(!l1.contains(id)) by {
                if l1.contains(id) {
                    let k = choose|k: int| 0 <= k < l1.len() && l1[k] == id;
                    let k0: int = if k < pos { k } else { k + 1 };
                    assert(l0[k0] == id && l0[pos] == id);
                }
            }
            assert forall|x: u32| !(l1.contains(x) && f1.contains(x)) by {
                if l1.contains(x) && f1.contains(x) {
                    let k = choose|k: int| 0 <= k < l1.len() && l1[k] == x;
                    let k0: int = if k < pos { k } else { k + 1 };
                    assert(l0[k0] == x);
                    assert(l0.contains(x));
                    let j = choose|j: int| 0 <= j < f1.len() && f1[j] == x;
                    if j < f0.len() {
                        assert(f0.contains(x));
                    } else {
                        assert(x == id);
                    }
                }
            }
            assert forall|i: int| 0 <= i < l1.len() implies 1 <= #[trigger] l1[i] <= self.next_id by {
                let i0: int = if i < pos { i } else { i + 1 };
                assert(l1[i] == l0[i0]);
            }
            assert forall|i: int| 0 <= i < f1.len() implies 1 <= #[trigger] f1[i] <= self.next_id by {
                if i < f0.len() {
                    assert(f0.contains(f0[i]));
                } else {
                    assert(f1[i] == id && l0[pos] == id);
                }
            }
        }
    }

    /// The position of a live client's id in the list of live ids.
    fn find_live(&self, id: u32) -> (i: usize)
        requires
            self.live_ids().contains(id),
        ensures
            i < self.live_ids().len(),
            self.live_ids()[i as int] == id,
    {
        let mut i: usize = 0;
        while i < self.live.len()
            invariant
                0 <= i <= self.live@.len(),
                self.live@.contains(id),
                forall|j: int| 0 <= j < i ==> self.live@[j] != id,
            decreases self.live@.len() - i,
        {
            if self.live[i] == id {
                return i;
            }
            i = i + 1;
        }
        proof {
            let k = choose|k: int| 0 <= k < self.live@.len() && self.live@[k] == id;
            assert(self.live@[k] != id);
        }
        unreached()
    }

    /// How many ids have been issued so far; the next fresh id is one more.
    pub fn issued(&self) -> (n: u32)
        ensures
            n == self.highest_id(),
    {
        self.next_id
    }

    /// How many clients are connected right now.
    pub fn live_count(&self) -> (n: usize)
        ensures
            n == self.live_ids().len(),
    {
        self.live.len()
    }

    /// Whether a client with this id is connected right now.
    pub fn is_live(&self, id: u32) -> (b: bool)
        ensures
            b == self.live_ids().contains(id),
    {
        let mut i: usize = 0;
        while i < self.live.len()
            invariant
                0 <= i <= self.live.len(),
                forall|j: int| 0 <= j < i ==> self.live@[j] != id,
            decreases self.live@.len() - i,
        {
            if self.live[i] == id {
                return true;
            }
            i = i + 1;
        }
        false
    }
}

/// No two live clients observe the same id: the list of live ids never holds
/// an id twice.
pub proof fn lemma_live_ids_unique(r: ClientRegistry)
    requires
        r.wf(),
    ensures
        forall|i: int, j: int|
            0 <= i < r.live_ids().len() && 0 <= j < r.live_ids().len() && i != j
                ==> r.live_ids()[i] != r.live_ids()[j],
{
}

/// Disconnect cleanup makes an id reusable: when client `a` disconnects
/// into an empty free-list, the very next connection is assigned `a`'s id.
/// Each hypothesis is a clause that [`ClientRegistry::disconnect`] or
/// [`ClientRegistry::connect`] ensures of the corresponding call.
pub proof fn lemma_freed_id_reusable(r0: ClientRegistry, r1: ClientRegistry, a: u32, c: u32)
    requires
        r0.freed_ids().len() == 0,
        // disconnect(a)
        r1.freed_ids() == r0.freed_ids().push(a),
        // what connect returns when the free-list is non-empty
        r1.freed_ids().len() > 0 ==> c == r1.freed_ids()[0],
    ensures
        c == a,
{
}

/// Id reuse is FIFO: of several freed ids, the one freed earliest is the
/// one a new connection takes.  Here clients `a` then `b` disconnect, in
/// that order, into an empty free-list; the next connection is assigned
/// `a`'s id, not `b`'s and not a fresh one.  Each hypothesis is a clause
/// that [`ClientRegistry::disconnect`] or [`ClientRegistry::connect`]
/// ensures of the corresponding call.
pub proof fn lemma_id_reuse_fifo(
    r0: ClientRegistry,
    r1: ClientRegistry,
    r2: ClientRegistry,
    a: u32,
    b: u32,
    c: u32,
)
    requires
        r0.freed_ids().len() == 0,
        // disconnect(a), then disconnect(b)
        r1.freed_ids() == r0.freed_ids().push(a),
        r2.freed_ids() == r1.freed_ids().push(b),
        // what connect returns when the free-list is non-empty
        r2.freed_ids().len() > 0 ==> c == r2.freed_ids()[0],
    ensures
        c == a,
{
}

} // verus!
