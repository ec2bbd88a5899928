//! A bounded, inline buffer of managed references, backed by a
//! fixed-capacity vector from the heapless crate. It mirrors the ordered
//! containers: traversal visits every held reference in buffer order.

use vstd::prelude::*;

verus! {

use crate::collect::Collect;
use crate::context::CollectionContext;
use crate::gc::Gc;

/// Declares heapless's fixed-capacity vector to the verifier; its contents
/// are reached only through the named sequence `buf_items` below.
#[verifier::external_type_specification]
#[verifier::external_body]
#[verifier::reject_recursive_types(T)]
pub struct ExHeaplessVec<T, const N: usize>(heapless::Vec<T, N>);

/// The cell identifiers a bounded buffer holds, in buffer order.
pub uninterp spec fn buf_items(v: heapless::Vec<u64, 32>) -> Seq<u64>;

/// Relies on heapless::Vec::new: the fresh vector is empty.
#[verifier::external_body]
fn hvec_new() -> (v: heapless::Vec<u64, 32>)
    ensures
        buf_items(v) == Seq::<u64>::empty(),
{
    heapless::Vec::new()
}

/// Relies on heapless::Vec::push: appends and returns Ok while fewer than
/// the capacity of 32 elements are stored, returns Err and leaves the
/// vector as it was once full.
#[verifier::external_body]
fn hvec_push(v: &mut heapless::Vec<u64, 32>, x: u64) -> (ok: bool)
    ensures
        ok == (buf_items(*old(v)).len() < 32),
        ok ==> buf_items(*final(v)) == buf_items(*old(v)).push(x),
        !ok ==> buf_items(*final(v)) == buf_items(*old(v)),
{
    v.push(x).is_ok()
}

/// Relies on <[u64]>::len through heapless::Vec::as_slice: the number of
/// elements stored.
#[verifier::external_body]
fn hvec_len(v: &heapless::Vec<u64, 32>) -> (n: usize)
    ensures
        n == buf_items(*v).len(),
{
    v.as_slice().len()
}

/// Relies on slice indexing through heapless::Vec::as_slice: the element
/// at position `i`.
#[verifier::external_body]
fn hvec_get(v: &heapless::Vec<u64, 32>, i: usize) -> (x: u64)
    requires
        i < buf_items(*v).len(),
    ensures
        x == buf_items(*v)[i as int],
{
    v.as_slice()[i]
}

/// A bounded buffer of managed references: up to 32 of them inline, no heap
/// allocation behind it.
pub struct GcRefBuffer {
    items: heapless::Vec<u64, 32>,
}

impl View for GcRefBuffer {
    type V = Seq<u64>;

    closed spec fn view(&self) -> Seq<u64> {
        buf_items(self.items)
    }
}

impl GcRefBuffer {
    /// An empty buffer.
    pub fn new() -> (b: GcRefBuffer)
        ensures
            b@ == Seq::<u64>::empty(),
    {
        GcRefBuffer { items: hvec_new() }
    }

    /// Append one managed reference; reports whether there was room.
    pub fn push(&mut self, g: Gc) -> (ok: bool)
        ensures
            ok == (old(self)@.len() < 32),
            ok ==> final(self)@ == old(self)@.push(g.id),
            !ok ==> final(self)@ == old(self)@,
    {
        hvec_push(&mut self.items, g.id)
    }

    /// How many references the buffer holds.
    pub fn len(&self) -> (n: usize)
        ensures
            n == self@.len(),
    {
        hvec_len(&self.items)
    }

    /// The reference at position `i`.
    pub fn get(&self, i: usize) -> (g: Gc)
        requires
            i < self@.len(),
        ensures
            g.id == self@[i as int],
    {
        Gc { id: hvec_get(&self.items, i) }
    }
}

impl Collect for GcRefBuffer {
    /// The buffer exists to own managed references.
    open spec fn needs_trace_spec() -> bool {
        true
    }

    open spec fn refs(&self) -> Seq<u64> {
        self@
    }

    proof fn no_refs_when_untraced(&self) {
    }

    /// The static predicate holds for the type as such, full or empty.
    fn needs_trace() -> (b: bool) {
        true
    }

    /// Visits every held reference, in buffer order.
    fn trace(&self, cc: &mut CollectionContext) {
        let ghost base: Seq<u64> = cc@;
        proof {
            assert(base + self@.take(0) =~= base);
        }
        let n: usize = hvec_len(&self.items);
        for i in 0..n
            invariant
                n == self@.len(),
                cc@ == base + self@.take(i as int),
        {
            let id = hvec_get(&self.items, i);
            cc.mark(id);
            proof {
                assert((base + self@.take(i as int)).push(id) =~= base + self@.take(i as int + 1));
            }
        }
        proof {
            assert(self@.take(n as int) =~= self@);
            assert(cc@ == base + self.refs());
        }
    }
}

} // verus!
