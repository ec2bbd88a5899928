//! Keyed containers that take part in the protocol: an insertion-ordered
//! mapping and a set. Traversal visits every entry — both key and value for
//! the mapping — in insertion order.

use vstd::prelude::*;

verus! {

use crate::collect::Collect;
use crate::collect::lemma_seq_refs_untraced;
use crate::collect::seq_refs;
use crate::context::CollectionContext;

/// A mapping whose keys and values take part in the capability protocol.
/// Entries are kept in insertion order, with no two entries sharing a key.
pub struct GcMap<K, V> {
    entries: Vec<(K, V)>,
}

impl<K, V> View for GcMap<K, V> {
    type V = Seq<(K, V)>;

    closed spec fn view(&self) -> Seq<(K, V)> {
        self.entries@
    }
}

impl<K, V> GcMap<K, V> {
    /// No two entries share a key.
    pub open spec fn wf(&self) -> bool {
        forall|i: int, j: int| 0 <= i < j < self@.len() ==> self@[i].0 != self@[j].0
    }

    /// Some entry carries the key `k`.
    pub open spec fn contains_key(&self, k: K) -> bool {
        exists|i: int| 0 <= i < self@.len() && self@[i].0 == k
    }

    /// An empty mapping.
    pub fn new() -> (m: GcMap<K, V>)
        ensures
            m@ == Seq::<(K, V)>::empty(),
            m.wf(),
    {
        GcMap { entries: Vec::new() }
    }

    /// Append the entry `(k, v)`; the key must be fresh.
    pub fn insert(&mut self, k: K, v: V)
        requires
            !old(self).contains_key(k),
        ensures
            final(self)@ == old(self)@.push((k, v)),
            old(self).wf() ==> final(self).wf(),
    {
        let ghost oldv: Seq<(K, V)> = self.entries@;
        self.entries.push((k, v));
        proof {
            let newv = self.entries@;
            if forall|i: int, j: int| 0 <= i < j < oldv.len() ==> oldv[i].0 != oldv[j].0 {
                assert forall|i: int, j: int|
                    0 <= i < j < newv.len() implies newv[i].0 != newv[j].0 by {
                    if j < oldv.len() {
                        assert(newv[i] == oldv[i]);
                        assert(newv[j] == oldv[j]);
                    } else {
                        assert(newv[j] == (k, v));
                        assert(newv[i] == oldv[i]);
                        if oldv[i].0 == k {
                            assert(0 <= i < old(self)@.len() && old(self)@[i].0 == k);
                            assert(old(self).contains_key(k));
                        }
                    }
                };
            }
        }
    }

    /// How many entries the mapping holds.
    pub fn len(&self) -> (n: usize)
        ensures
            n == self@.len(),
    {
        self.entries.len()
    }
}

impl<K: Collect, V: Collect> Collect for GcMap<K, V> {
    /// A mapping needs tracing when its key type or its value type does.
    open spec fn needs_trace_spec() -> bool {
        K::needs_trace_spec() || V::needs_trace_spec()
    }

    open spec fn refs(&self) -> Seq<u64> {
        seq_refs(self@)
    }

    proof fn no_refs_when_untraced(&self) {
        if !Self::needs_trace_spec() {
            lemma_seq_refs_untraced::<(K, V)>(self@);
        }
    }

    fn needs_trace() -> (b: bool) {
        K::needs_trace() || V::needs_trace()
    }

    /// Visits key then value of every entry, in insertion order.
    fn trace(&self, cc: &mut CollectionContext) {
        self.entries.trace(cc);
    }
}

/// A set whose elements take part in the capability protocol. Elements are
/// kept in insertion order and are pairwise distinct.
pub struct GcSet<T> {
    items: Vec<T>,
}

impl<T> View for GcSet<T> {
    type V = Seq<T>;

    closed spec fn view(&self) -> Seq<T> {
        self.items@
    }
}

impl<T> GcSet<T> {
    /// No element occurs twice.
    pub open spec fn wf(&self) -> bool {
        forall|i: int, j: int| 0 <= i < j < self@.len() ==> self@[i] != self@[j]
    }

    /// `t` is already an element.
    pub open spec fn contains(&self, t: T) -> bool {
        exists|i: int| 0 <= i < self@.len() && self@[i] == t
    }

    /// An empty set.
    pub fn new() -> (s: GcSet<T>)
        ensures
            s@ == Seq::<T>::empty(),
            s.wf(),
    {
        GcSet { items: Vec::new() }
    }

    /// Append the element `t`; it must be fresh.
    pub fn insert(&mut self, t: T)
        requires
            !old(self).contains(t),
        ensures
            final(self)@ == old(self)@.push(t),
            old(self).wf() ==> final(self).wf(),
    {
        let ghost oldv: Seq<T> = self.items@;
        self.items.push(t);
        proof {
            let newv = self.items@;
            if forall|i: int, j: int| 0 <= i < j < oldv.len() ==> oldv[i] != oldv[j] {
                assert forall|i: int, j: int|
                    0 <= i < j < newv.len() implies newv[i] != newv[j] by {
                    if j < oldv.len() {
                        assert(newv[i] == oldv[i]);
                        assert(newv[j] == oldv[j]);
                    } else {
                        assert(newv[j] == t);
                        assert(newv[i] == oldv[i]);
                        if oldv[i] == t {
                            assert(0 <= i < old(self)@.len() && old(self)@[i] == t);
                            assert(old(self).contains(t));
                        }
                    }
                };
            }
        }
    }

    /// How many elements the set holds.
    pub fn len(&self) -> (n: usize)
        ensures
            n == self@.len(),
    {
        self.items.len()
    }
}

impl<T: Collect> Collect for GcSet<T> {
    /// A set needs tracing when its element type does.
    open spec fn needs_trace_spec() -> bool {
        T::needs_trace_spec()
    }

    open spec fn refs(&self) -> Seq<u64> {
        seq_refs(self@)
    }

    proof fn no_refs_when_untraced(&self) {
        if !T::needs_trace_spec() {
            lemma_seq_refs_untraced::<T>(self@);
        }
    }

    fn needs_trace() -> (b: bool) {
        T::needs_trace()
    }

    /// Visits every element, in insertion order.
    fn trace(&self, cc: &mut CollectionContext) {
        self.items.trace(cc);
    }
}

} // verus!
