//! The take-once registries: a process-wide table from an identifier to a
//! one-time-takeable handle. Lookup and removal are one atomic operation:
//! the first `take` of an identifier removes the entry and hands the handle
//! out, every later `take` of the same identifier fails with `NotFound`.
//! That is the sole mechanism granting at most one consumer per sink or edge.

use vstd::prelude::*;

use crate::ids::{StreamEdgeId, TaskSinkId};

verus! {

/// A `register` found the identifier already present: a caller bug.
#[derive(Clone, Copy, Debug, PartialEq, Eq, Structural)]
pub enum RegisterError {
    AlreadyRegistered,
}

/// A `take` found no entry: the identifier was never registered, or its
/// handle was already taken.
#[derive(Clone, Copy, Debug, PartialEq, Eq, Structural)]
pub enum TakeError {
    NotFound,
}

/// An identifier type a registry can be keyed by: a plain value whose
/// executable comparison decides structural equality.
pub trait ExchangeKey: Copy {
    /// Decides whether two keys are the same identifier.
    fn same_key(&self, other: &Self) -> (r: bool)
        ensures
            r == (*self == *other),
    ;
}

impl ExchangeKey for TaskSinkId {
    fn same_key(&self, other: &Self) -> (r: bool)
        ensures
            r == (*self == *other),
    {
        *self == *other
    }
}

impl ExchangeKey for StreamEdgeId {
    fn same_key(&self, other: &Self) -> (r: bool)
        ensures
            r == (*self == *other),
    {
        *self == *other
    }
}

/// A table from identifiers to handles in which every entry can be taken at
/// most once. Handles only ever move: `register` moves one in, the first
/// `take` moves it out, and the registry never holds two entries under one
/// identifier.
pub struct Registry<K, V> {
    entries: Vec<(K, V)>,
}

impl<K: ExchangeKey, V> Registry<K, V> {
    /// How many identifiers are registered.
    pub closed spec fn len_spec(self) -> int {
        self.entries@.len() as int
    }

    spec fn key_at(self, i: int) -> K {
        self.entries@[i].0
    }

    spec fn val_at(self, i: int) -> V {
        self.entries@[i].1
    }

    /// No identifier is registered twice.
    pub closed spec fn wf(self) -> bool {
        forall|i: int, j: int|
            0 <= i < j < self.len_spec() ==> self.key_at(i) != self.key_at(j)
    }

    /// Whether an unconsumed handle is registered under `id`.
    pub closed spec fn has(self, id: K) -> bool {
        exists|i: int| 0 <= i < self.len_spec() && self.key_at(i) == id
    }

    /// The handle registered under `id`, meaningful while `has(id)`.
    pub closed spec fn value_of(self, id: K) -> V {
        self.val_at(choose|i: int| 0 <= i < self.len_spec() && self.key_at(i) == id)
    }

    proof fn lemma_entry_is_value(self, i: int)
        requires
            self.wf(),
            0 <= i < self.len_spec(),
        ensures
            self.has(self.key_at(i)),
            self.value_of(self.key_at(i)) == self.val_at(i),
    {
        assert(0 <= i < self.len_spec() && self.key_at(i) == self.key_at(i));
        let j = choose|j: int| 0 <= j < self.len_spec() && self.key_at(j) == self.key_at(i);
        if i < j {
            assert(self.key_at(i) != self.key_at(j));
        } else if j < i {
            assert(self.key_at(j) != self.key_at(i));
        }
    }

    /// An empty registry.
    pub fn new() -> (r: Self)
        ensures
            r.wf(),
            r.len_spec() == 0,
            forall|id: K| !r.has(id),
    {
        Registry { entries: Vec::new() }
    }

    /// Finds the index of `id`, or reports that no entry holds it.
    fn find(&self, id: K) -> (r: Option<usize>)
        ensures
            match r {
                Some(i) => i < self.len_spec() && self.key_at(i as int) == id,
                None => forall|j: int| 0 <= j < self.len_spec() ==> self.key_at(j) != id,
            },
    {
        let n = self.entries.len();
        let mut i: usize = 0;
        while i < n
            invariant
                n == self.len_spec(),
                i <= n,
                forall|j: int| 0 <= j < i ==> self.key_at(j) != id,
            decreases n - i,
        {
            if self.entries[i].0.same_key(&id) {
                return Some(i);
            }
            i = i + 1;
        }
        None
    }

    /// Inserts a handle under a fresh identifier; fails, changing nothing,
    /// if the identifier already has an entry.
    pub fn register(&mut self, id: K, handle: V) -> (r: Result<(), RegisterError>)
        requires
            old(self).wf(),
        ensures
            final(self).wf(),
            old(self).has(id) ==> r == Result::<(), RegisterError>::Err(
                RegisterError::AlreadyRegistered,
            ) && *final(self) == *old(self),
            !old(self).has(id) ==> {
                &&& r is Ok
                &&& final(self).has(id)
                &&& final(self).value_of(id) == handle
                &&& final(self).len_spec() == old(self).len_spec() + 1
            },
            forall|k: K| k != id ==> final(self).has(k) == old(self).has(k),
            forall|k: K|
                k != id && old(self).has(k) ==> final(self).value_of(k) == old(self).value_of(k),
    {
        match self.find(id) {
            Some(_) => Err(RegisterError::AlreadyRegistered),
            None => {
                self.entries.push((id, handle));
                proof {
                    let n = old(self).len_spec();
                    assert(self.key_at(n) == id && self.val_at(n) == handle);
                    assert forall|i: int, j: int|
                        0 <= i < j < self.len_spec() implies self.key_at(i) != self.key_at(
                        j,
                    ) by {
                        if j < n {
                            assert(old(self).key_at(i) != old(self).key_at(j));
                        } else {
                            assert(old(self).key_at(i) != id);
                        }
                    }
                    self.lemma_entry_is_value(n);
                    assert forall|k: K| k != id implies final(self).has(k) == old(self).has(
                        k,
                    ) by {
                        if old(self).has(k) {
                            let w = choose|w: int|
                                0 <= w < old(self).len_spec() && old(self).key_at(w) == k;
                            assert(self.key_at(w) == k);
                        }
                        if self.has(k) {
                            let w = choose|w: int|
                                0 <= w < self.len_spec() && self.key_at(w) == k;
                            assert(w < n && old(self).key_at(w) == k);
                        }
                    }
                    assert forall|k: K| k != id && old(self).has(k) implies final(self).value_of(k)
                        == old(self).value_of(k) by {
                        let w = choose|w: int|
                            0 <= w < old(self).len_spec() && old(self).key_at(w) == k;
                        assert(self.key_at(w) == k);
                        old(self).lemma_entry_is_value(w);
                        self.lemma_entry_is_value(w);
                    }
                }
                Ok(())
            },
        }
    }

    /// Atomically removes and returns the handle under `id`. Fails with
    /// `NotFound`, changing nothing, if no entry exists: never registered,
    /// already taken, or the task failed before producing output. After a
    /// successful `take` of `id`, `has(id)` no longer holds, so a second
    /// `take` of the same identifier fails with `NotFound`: at most one
    /// consumer ever obtains the handle.
    pub fn take(&mut self, id: K) -> (r: Result<V, TakeError>)
        requires
            old(self).wf(),
        ensures
            final(self).wf(),
            !old(self).has(id) ==> r == Result::<V, TakeError>::Err(TakeError::NotFound)
                && *final(self) == *old(self),
            old(self).has(id) ==> {
                &&& r == Result::<V, TakeError>::Ok(old(self).value_of(id))
                &&& !final(self).has(id)
                &&& final(self).len_spec() == old(self).len_spec() - 1
            },
            forall|k: K| k != id ==> final(self).has(k) == old(self).has(k),
            forall|k: K|
                k != id && old(self).has(k) ==> final(self).value_of(k) == old(self).value_of(k),
    {
        match self.find(id) {
            None => Err(TakeError::NotFound),
            Some(i) => {
                proof {
                    old(self).lemma_entry_is_value(i as int);
                }
                let entry = self.entries.remove(i);
                proof {
                    let n = old(self).len_spec();
                    let ii = i as int;
                    assert forall|j: int| 0 <= j < self.len_spec() implies self.key_at(j) == (
                    if j < ii {
                        old(self).key_at(j)
                    } else {
                        old(self).key_at(j + 1)
                    }) && self.val_at(j) == (
                    if j < ii {
                        old(self).val_at(j)
                    } else {
                        old(self).val_at(j + 1)
                    }) by {
                        assert(self.entries@ == old(self).entries@.remove(ii));
                    }
                    assert forall|p: int, q: int|
                        0 <= p < q < self.len_spec() implies self.key_at(p) != self.key_at(
                        q,
                    ) by {
                        let p0 = if p < ii {
                            p
                        } else {
                            p + 1
                        };
                        let q0 = if q < ii {
                            q
                        } else {
                            q + 1
                        };
                        assert(old(self).key_at(p0) != old(self).key_at(q0));
                    }
                    assert forall|j: int| 0 <= j < self.len_spec() implies self.key_at(j)
                        != id by {
                        let j0 = if j < ii {
                            j
                        } else {
                            j + 1
                        };
                        if j0 < ii {
                            assert(old(self).key_at(j0) != old(self).key_at(ii));
                        } else if j0 > ii {
                            assert(old(self).key_at(ii) != old(self).key_at(j0));
                        }
                    }
                    assert forall|k: K| k != id implies final(self).has(k) == old(self).has(
                        k,
                    ) by {
                        if old(self).has(k) {
                            let w = choose|w: int|
                                0 <= w < old(self).len_spec() && old(self).key_at(w) == k;
                            let w1 = if w < ii {
                                w
                            } else {
                                w - 1
                            };
                            assert(w != ii);
                            assert(self.key_at(w1) == k);
                        }
                        if self.has(k) {
                            let w = choose|w: int|
                                0 <= w < self.len_spec() && self.key_at(w) == k;
                            let w0 = if w < ii {
                                w
                            } else {
                                w + 1
                            };
                            assert(old(self).key_at(w0) == k);
                        }
                    }
                    assert forall|k: K| k != id && old(self).has(k) implies final(self).value_of(k)
                        == old(self).value_of(k) by {
                        let w = choose|w: int|
                            0 <= w < old(self).len_spec() && old(self).key_at(w) == k;
                        old(self).lemma_entry_is_value(w);
                        let w1 = if w < ii {
                            w
                        } else {
                            w - 1
                        };
                        assert(w != ii);
                        assert(self.key_at(w1) == k && self.val_at(w1) == old(self).val_at(w));
                        self.lemma_entry_is_value(w1);
                    }
                }
                Ok(entry.1)
            },
        }
    }

    /// The at-most-once law, for every registry state and identifier:
    /// whatever a first `take` of `id` returned, a second `take` of the
    /// same `id` finds no entry and fails with `NotFound` — either the
    /// first call removed the entry, or there never was one.
    pub fn take_twice(&mut self, id: K) -> (r: (Result<V, TakeError>, Result<V, TakeError>))
        requires
            old(self).wf(),
        ensures
            final(self).wf(),
            old(self).has(id) ==> r.0 == Result::<V, TakeError>::Ok(old(self).value_of(id)),
            !old(self).has(id) ==> r.0 == Result::<V, TakeError>::Err(TakeError::NotFound),
            r.1 == Result::<V, TakeError>::Err(TakeError::NotFound),
    {
        let first = self.take(id);
        let second = self.take(id);
        (first, second)
    }
}

} // verus!
