//! The registry of JSON-RPC calls that await their response.

use vstd::prelude::*;

use crate::error::RequestId;

verus! {

/// The identifier issued after `id`: the counter wraps around and never
/// issues zero.
pub open spec fn successor(id: u64) -> u64 {
    if id == u64::MAX {
        1
    } else {
        (id + 1) as u64
    }
}

/// The identifiers held by a list of request identifiers.
pub open spec fn ids_of(v: Seq<RequestId>) -> Set<u64> {
    v.map_values(|r: RequestId| r.id()).to_set()
}

/// Identifiers of the calls awaiting a response, and the identifier the
/// next call receives.
#[derive(Debug)]
pub struct PendingRequests {
    next: u64,
    waiting: Vec<u64>,
}

/// The content of the registry.
pub struct PendingData {
    pub next: u64,
    pub ids: Set<u64>,
}

impl View for PendingRequests {
    type V = PendingData;

    closed spec fn view(&self) -> PendingData {
        PendingData { next: self.next, ids: self.waiting@.to_set() }
    }
}

impl PendingRequests {
    #[verifier::type_invariant]
    spec fn well_formed(self) -> bool {
        &&& self.next != 0
        &&& self.waiting@.no_duplicates()
        &&& forall|i: int| 0 <= i < self.waiting@.len() ==> #[trigger] self.waiting@[i] != 0
    }

    /// The next identifier is never zero and neither is any waiting one.
    pub fn lemma_nonzero(&self)
        ensures
            self@.next != 0,
            !self@.ids.contains(0),
            self@.ids.finite(),
    {
        proof {
            use_type_invariant(self);
            self.waiting@.to_multiset_ensures();
            vstd::seq_lib::seq_to_set_is_finite(self.waiting@);
        }
    }

    /// An empty registry whose first identifier is 1.
    pub fn new() -> (r: PendingRequests)
        ensures
            r@.next == 1,
            r@.ids == Set::<u64>::empty(),
    {
        let r = PendingRequests { next: 1, waiting: Vec::new() };
        assert(r.waiting@.to_set() =~= Set::<u64>::empty());
        r
    }

    /// Whether `id` awaits a response.
    pub fn contains(&self, id: u64) -> (r: bool)
        ensures
            r == self@.ids.contains(id),
    {
        let mut i: usize = 0;
        while i < self.waiting.len()
            invariant
                i <= self.waiting.len(),
                forall|j: int| 0 <= j < i ==> self.waiting@[j] != id,
            decreases self.waiting.len() - i,
        {
            if self.waiting[i] == id {
                assert(self.waiting@.to_set().contains(id)) by {
                    assert(self.waiting@.contains(id));
                }
                return true;
            }
            i += 1;
        }
        assert(!self.waiting@.contains(id));
        false
    }

    /// The number of calls awaiting a response.
    pub fn len(&self) -> (r: usize)
        ensures
            r == self@.ids.len(),
    {
        proof {
            use_type_invariant(self);
            self.waiting@.unique_seq_to_set();
        }
        self.waiting.len()
    }

    /// Issues the next identifier and records the call as waiting.
    pub fn register(&mut self) -> (r: RequestId)
        ensures
            r.id() == old(self)@.next,
            r.id() != 0,
            final(self)@.next == successor(old(self)@.next),
            final(self)@.ids == old(self)@.ids.insert(r.id()),
    {
        proof {
            use_type_invariant(&*self);
        }
        let id = self.next;
        let present = self.contains(id);
        let mut waiting: Vec<u64> = Vec::new();
        std::mem::swap(&mut waiting, &mut self.waiting);
        if !present {
            waiting.push(id);
            proof {
                assert(!old(self).waiting@.contains(id));
                assert forall|i: int, j: int|
                    0 <= i < waiting@.len() && 0 <= j < waiting@.len() && i != j implies waiting@[i]
                    != waiting@[j] by {
                    if i < old(self).waiting@.len() && j < old(self).waiting@.len() {
                    } else if i == old(self).waiting@.len() {
                        assert(waiting@[j] == old(self).waiting@[j]);
                    } else {
                        assert(waiting@[i] == old(self).waiting@[i]);
                    }
                }
                assert(waiting@.to_set() =~= old(self).waiting@.to_set().insert(id)) by {
                    assert forall|x: u64| waiting@.to_set().contains(x) implies old(
                        self,
                    ).waiting@.to_set().insert(id).contains(x) by {
                        let k = waiting@.index_of(x);
                        if k < old(self).waiting@.len() {
                            assert(old(self).waiting@[k] == x);
                        }
                    }
                    assert forall|x: u64| old(self).waiting@.to_set().insert(id).contains(x) implies waiting@.to_set().contains(x) by {
                        if x == id {
                            assert(waiting@[waiting@.len() - 1] == id);
                        } else {
                            let k = old(self).waiting@.index_of(x);
                            assert(waiting@[k] == x);
                        }
                    }
                }
            }
        } else {
            proof {
                assert(waiting@.to_set() =~= old(self).waiting@.to_set().insert(id));
            }
        }
        let next = if id == u64::MAX {
            1
        } else {
            id + 1
        };
        *self = PendingRequests { next, waiting };
        RequestId::new(id)
    }

    /// Forgets `id`; returns whether it was waiting.
    pub fn remove(&mut self, id: u64) -> (r: bool)
        ensures
            r == old(self)@.ids.contains(id),
            final(self)@.next == old(self)@.next,
            final(self)@.ids == old(self)@.ids.remove(id),
    {
        proof {
            use_type_invariant(&*self);
        }
        let mut i: usize = 0;
        while i < self.waiting.len()
            invariant
                i <= self.waiting.len(),
                *self == *old(self),
                forall|j: int| 0 <= j < i ==> self.waiting@[j] != id,
            decreases self.waiting.len() - i,
        {
            if self.waiting[i] == id {
                proof {
                    use_type_invariant(&*self);
                }
                let next = self.next;
                let mut waiting: Vec<u64> = Vec::new();
                std::mem::swap(&mut waiting, &mut self.waiting);
                let ghost before = waiting@;
                waiting.remove(i);
                proof {
                    assert(waiting@ =~= before.subrange(0, i as int) + before.subrange(
                        i + 1,
                        before.len() as int,
                    ));
                    assert forall|a: int, b: int|
                        0 <= a < waiting@.len() && 0 <= b < waiting@.len() && a != b implies waiting@[a]
                        != waiting@[b] by {
                        let oa = if a < i { a } else { a + 1 };
                        let ob = if b < i { b } else { b + 1 };
                        assert(waiting@[a] == before[oa]);
                        assert(waiting@[b] == before[ob]);
                    }
                    assert forall|k: int| 0 <= k < waiting@.len() implies #[trigger] waiting@[k] != 0 by {
                        let ok = if k < i { k } else { k + 1 };
                        assert(waiting@[k] == before[ok]);
                    }
                    assert(waiting@.to_set() =~= before.to_set().remove(id)) by {
                        assert forall|x: u64| waiting@.to_set().contains(x) implies before.to_set().remove(
                            id,
                        ).contains(x) by {
                            let k = waiting@.index_of(x);
                            let ok = if k < i { k } else { k + 1 };
                            assert(waiting@[k] == before[ok]);
                            assert(ok != i as int);
                        }
                        assert forall|x: u64| before.to_set().remove(id).contains(x) implies waiting@.to_set().contains(x) by {
                            let k = before.index_of(x);
                            assert(k != i as int);
                            let nk = if k < i { k } else { k - 1 };
                            assert(waiting@[nk] == x);
                        }
                    }
                    assert(before.contains(id));
                }
                *self = PendingRequests { next, waiting };
                return true;
            }
            i += 1;
        }
        proof {
            assert(!self.waiting@.contains(id));
            assert(self.waiting@.to_set() =~= self.waiting@.to_set().remove(id));
        }
        false
    }

    /// Empties the registry and returns the identifiers that were waiting,
    /// each once.
    pub fn take_all(&mut self) -> (r: Vec<RequestId>)
        ensures
            ids_of(r@) == old(self)@.ids,
            r@.map_values(|x: RequestId| x.id()).no_duplicates(),
            final(self)@.next == old(self)@.next,
            final(self)@.ids == Set::<u64>::empty(),
    {
        proof {
            use_type_invariant(&*self);
        }
        let next = self.next;
        let mut waiting: Vec<u64> = Vec::new();
        std::mem::swap(&mut waiting, &mut self.waiting);
        let mut out: Vec<RequestId> = Vec::new();
        let mut i: usize = 0;
        while i < waiting.len()
            invariant
                i <= waiting.len(),
                out@.len() == i,
                forall|k: int| 0 <= k < i ==> #[trigger] out@[k].id() == waiting@[k],
            decreases waiting.len() - i,
        {
            out.push(RequestId::new(waiting[i]));
            i += 1;
        }
        assert(out@.map_values(|x: RequestId| x.id()) =~= waiting@);
        let empty: Vec<u64> = Vec::new();
        assert(empty@.to_set() =~= Set::<u64>::empty());
        *self = PendingRequests { next, waiting: empty };
        out
    }
}

} // verus!
