//! How the capability protocol propagates through structure: leaves opt out,
//! ownership wrappers delegate, containers and products visit every part.

use vstd::prelude::*;

verus! {

use crate::collect::Collect;
use crate::collect::lemma_concat_empty;
use crate::collect::lemma_seq_refs_push;
use crate::collect::lemma_seq_refs_untraced;
use crate::collect::seq_refs;
use crate::context::CollectionContext;

/// Declares std's plain interior-mutability cell to the verifier. The
/// protocol states nothing about it: a cell is opaque, and its impl below
/// never reads it.
#[verifier::reject_recursive_types(T)]
#[verifier::external_type_specification]
#[verifier::external_body]
pub struct ExCell<T: ?Sized>(core::cell::Cell<T>);

/// Declares std's borrow-checked interior-mutability cell to the verifier,
/// as for `Cell`: opaque, never read by the protocol.
#[verifier::reject_recursive_types(T)]
#[verifier::external_type_specification]
#[verifier::external_body]
pub struct ExRefCell<T: ?Sized>(core::cell::RefCell<T>);

impl Collect for bool {
    /// A plain value can never hold a managed reference.
    open spec fn needs_trace_spec() -> bool {
        false
    }

    open spec fn refs(&self) -> Seq<u64> {
        Seq::<u64>::empty()
    }

    proof fn no_refs_when_untraced(&self) {
    }

    fn needs_trace() -> (b: bool) {
        false
    }

    fn trace(&self, cc: &mut CollectionContext) {
        proof {
            lemma_concat_empty(cc@);
        }
    }
}

impl Collect for u8 {
    open spec fn needs_trace_spec() -> bool {
        false
    }

    open spec fn refs(&self) -> Seq<u64> {
        Seq::<u64>::empty()
    }

    proof fn no_refs_when_untraced(&self) {
    }

    fn needs_trace() -> (b: bool) {
        false
    }

    fn trace(&self, cc: &mut CollectionContext) {
        proof {
            lemma_concat_empty(cc@);
        }
    }
}

impl Collect for u16 {
    open spec fn needs_trace_spec() -> bool {
        false
    }

    open spec fn refs(&self) -> Seq<u64> {
        Seq::<u64>::empty()
    }

    proof fn no_refs_when_untraced(&self) {
    }

    fn needs_trace() -> (b: bool) {
        false
    }

    fn trace(&self, cc: &mut CollectionContext) {
        proof {
            lemma_concat_empty(cc@);
        }
    }
}

impl Collect for u32 {
    open spec fn needs_trace_spec() -> bool {
        false
    }

    open spec fn refs(&self) -> Seq<u64> {
        Seq::<u64>::empty()
    }

    proof fn no_refs_when_untraced(&self) {
    }

    fn needs_trace() -> (b: bool) {
        false
    }

    fn trace(&self, cc: &mut CollectionContext) {
        proof {
            lemma_concat_empty(cc@);
        }
    }
}

impl Collect for u64 {
    open spec fn needs_trace_spec() -> bool {
        false
    }

    open spec fn refs(&self) -> Seq<u64> {
        Seq::<u64>::empty()
    }

    proof fn no_refs_when_untraced(&self) {
    }

    fn needs_trace() -> (b: bool) {
        false
    }

    fn trace(&self, cc: &mut CollectionContext) {
        proof {
            lemma_concat_empty(cc@);
        }
    }
}

impl Collect for usize {
    open spec fn needs_trace_spec() -> bool {
        false
    }

    open spec fn refs(&self) -> Seq<u64> {
        Seq::<u64>::empty()
    }

    proof fn no_refs_when_untraced(&self) {
    }

    fn needs_trace() -> (b: bool) {
        false
    }

    fn trace(&self, cc: &mut CollectionContext) {
        proof {
            lemma_concat_empty(cc@);
        }
    }
}

impl Collect for i8 {
    open spec fn needs_trace_spec() -> bool {
        false
    }

    open spec fn refs(&self) -> Seq<u64> {
        Seq::<u64>::empty()
    }

    proof fn no_refs_when_untraced(&self) {
    }

    fn needs_trace() -> (b: bool) {
        false
    }

    fn trace(&self, cc: &mut CollectionContext) {
        proof {
            lemma_concat_empty(cc@);
        }
    }
}

impl Collect for i16 {
    open spec fn needs_trace_spec() -> bool {
        false
    }

    open spec fn refs(&self) -> Seq<u64> {
        Seq::<u64>::empty()
    }

    proof fn no_refs_when_untraced(&self) {
    }

    fn needs_trace() -> (b: bool) {
        false
    }

    fn trace(&self, cc: &mut CollectionContext) {
        proof {
            lemma_concat_empty(cc@);
        }
    }
}

impl Collect for i32 {
    open spec fn needs_trace_spec() -> bool {
        false
    }

    open spec fn refs(&self) -> Seq<u64> {
        Seq::<u64>::empty()
    }

    proof fn no_refs_when_untraced(&self) {
    }

    fn needs_trace() -> (b: bool) {
        false
    }

    fn trace(&self, cc: &mut CollectionContext) {
        proof {
            lemma_concat_empty(cc@);
        }
    }
}

impl Collect for i64 {
    open spec fn needs_trace_spec() -> bool {
        false
    }

    open spec fn refs(&self) -> Seq<u64> {
        Seq::<u64>::empty()
    }

    proof fn no_refs_when_untraced(&self) {
    }

    fn needs_trace() -> (b: bool) {
        false
    }

    fn trace(&self, cc: &mut CollectionContext) {
        proof {
            lemma_concat_empty(cc@);
        }
    }
}

impl Collect for isize {
    open spec fn needs_trace_spec() -> bool {
        false
    }

    open spec fn refs(&self) -> Seq<u64> {
        Seq::<u64>::empty()
    }

    proof fn no_refs_when_untraced(&self) {
    }

    fn needs_trace() -> (b: bool) {
        false
    }

    fn trace(&self, cc: &mut CollectionContext) {
        proof {
            lemma_concat_empty(cc@);
        }
    }
}

impl Collect for String {
    /// A text buffer owns characters, never managed references.
    open spec fn needs_trace_spec() -> bool {
        false
    }

    open spec fn refs(&self) -> Seq<u64> {
        Seq::<u64>::empty()
    }

    proof fn no_refs_when_untraced(&self) {
    }

    fn needs_trace() -> (b: bool) {
        false
    }

    fn trace(&self, cc: &mut CollectionContext) {
        proof {
            lemma_concat_empty(cc@);
        }
    }
}

impl Collect for () {
    open spec fn needs_trace_spec() -> bool {
        false
    }

    open spec fn refs(&self) -> Seq<u64> {
        Seq::<u64>::empty()
    }

    proof fn no_refs_when_untraced(&self) {
    }

    fn needs_trace() -> (b: bool) {
        false
    }

    fn trace(&self, cc: &mut CollectionContext) {
        proof {
            lemma_concat_empty(cc@);
        }
    }
}

impl<'a, T> Collect for &'a T {
    /// A plain borrow into unrelated memory is not ownership: the borrowed
    /// value has an owner of its own that the collector already sees.
    open spec fn needs_trace_spec() -> bool {
        false
    }

    open spec fn refs(&self) -> Seq<u64> {
        Seq::<u64>::empty()
    }

    proof fn no_refs_when_untraced(&self) {
    }

    fn needs_trace() -> (b: bool) {
        false
    }

    fn trace(&self, cc: &mut CollectionContext) {
        proof {
            lemma_concat_empty(cc@);
        }
    }
}

impl<'a, T> Collect for &'a mut T {
    /// As for the shared borrow: borrowing is not owning.
    open spec fn needs_trace_spec() -> bool {
        false
    }

    open spec fn refs(&self) -> Seq<u64> {
        Seq::<u64>::empty()
    }

    proof fn no_refs_when_untraced(&self) {
    }

    fn needs_trace() -> (b: bool) {
        false
    }

    fn trace(&self, cc: &mut CollectionContext) {
        proof {
            lemma_concat_empty(cc@);
        }
    }
}

impl<T: Collect> Collect for Box<T> {
    /// Exclusive ownership: the box needs tracing exactly when its contents
    /// do.
    open spec fn needs_trace_spec() -> bool {
        T::needs_trace_spec()
    }

    open spec fn refs(&self) -> Seq<u64> {
        (**self).refs()
    }

    proof fn no_refs_when_untraced(&self) {
        if !T::needs_trace_spec() {
            (**self).no_refs_when_untraced();
        }
    }

    fn needs_trace() -> (b: bool) {
        T::needs_trace()
    }

    fn trace(&self, cc: &mut CollectionContext) {
        (**self).trace(cc);
    }
}

impl<T: Collect> Collect for Box<[T]> {
    /// An owned slice behaves as the growable sequence does.
    open spec fn needs_trace_spec() -> bool {
        T::needs_trace_spec()
    }

    open spec fn refs(&self) -> Seq<u64> {
        seq_refs(self@)
    }

    proof fn no_refs_when_untraced(&self) {
        if !T::needs_trace_spec() {
            lemma_seq_refs_untraced::<T>(self@);
        }
    }

    fn needs_trace() -> (b: bool) {
        T::needs_trace()
    }

    fn trace(&self, cc: &mut CollectionContext) {
        let ghost base: Seq<u64> = cc@;
        proof {
            lemma_concat_empty(base);
        }
        let n: usize = self.len();
        for i in 0..n
            invariant
                n == self@.len(),
                cc@ == base + seq_refs(self@.take(i as int)),
        {
            let t = &self[i];
            let ghost pre: Seq<u64> = seq_refs(self@.take(i as int));
            t.trace(cc);
            proof {
                assert(self@.take(i as int).push(self@[i as int]) =~= self@.take(i as int + 1));
                lemma_seq_refs_push(self@.take(i as int), self@[i as int]);
                assert((base + pre) + t.refs() =~= base + (pre + t.refs()));
            }
        }
        proof {
            assert(self@.take(n as int) =~= self@);
        }
    }
}

impl<T: Collect> Collect for std::rc::Rc<T> {
    /// Shared ownership delegates to the contents. A traversal registers the
    /// shared value once per visiting call; deduplicating a subgraph reached
    /// through several co-owners is the collector's business, not the
    /// protocol's.
    open spec fn needs_trace_spec() -> bool {
        T::needs_trace_spec()
    }

    open spec fn refs(&self) -> Seq<u64> {
        (**self).refs()
    }

    proof fn no_refs_when_untraced(&self) {
        if !T::needs_trace_spec() {
            (**self).no_refs_when_untraced();
        }
    }

    fn needs_trace() -> (b: bool) {
        T::needs_trace()
    }

    fn trace(&self, cc: &mut CollectionContext) {
        (**self).trace(cc);
    }
}

impl<T: Collect> Collect for std::sync::Arc<T> {
    /// The multi-threaded shared-ownership wrapper behaves as the
    /// single-threaded one.
    open spec fn needs_trace_spec() -> bool {
        T::needs_trace_spec()
    }

    open spec fn refs(&self) -> Seq<u64> {
        (**self).refs()
    }

    proof fn no_refs_when_untraced(&self) {
        if !T::needs_trace_spec() {
            (**self).no_refs_when_untraced();
        }
    }

    fn needs_trace() -> (b: bool) {
        T::needs_trace()
    }

    fn trace(&self, cc: &mut CollectionContext) {
        (**self).trace(cc);
    }
}

impl<T: Collect> Collect for Option<T> {
    /// An optional value needs tracing when its one alternative does.
    open spec fn needs_trace_spec() -> bool {
        T::needs_trace_spec()
    }

    open spec fn refs(&self) -> Seq<u64> {
        match self {
            Some(t) => t.refs(),
            None => Seq::<u64>::empty(),
        }
    }

    proof fn no_refs_when_untraced(&self) {
        if !T::needs_trace_spec() {
            match self {
                Some(t) => t.no_refs_when_untraced(),
                None => (),
            }
        }
    }

    fn needs_trace() -> (b: bool) {
        T::needs_trace()
    }

    fn trace(&self, cc: &mut CollectionContext) {
        match self {
            Some(t) => {
                t.trace(cc);
            }
            None => {
                proof {
                    lemma_concat_empty(cc@);
                }
            }
        }
    }
}

impl<T: Collect, E: Collect> Collect for Result<T, E> {
    /// A fallible result needs tracing when either alternative does; a value
    /// traces whichever alternative is present.
    open spec fn needs_trace_spec() -> bool {
        T::needs_trace_spec() || E::needs_trace_spec()
    }

    open spec fn refs(&self) -> Seq<u64> {
        match self {
            Ok(t) => t.refs(),
            Err(e) => e.refs(),
        }
    }

    proof fn no_refs_when_untraced(&self) {
        if !Self::needs_trace_spec() {
            match self {
                Ok(t) => t.no_refs_when_untraced(),
                Err(e) => e.no_refs_when_untraced(),
            }
        }
    }

    fn needs_trace() -> (b: bool) {
        T::needs_trace() || E::needs_trace()
    }

    fn trace(&self, cc: &mut CollectionContext) {
        match self {
            Ok(t) => {
                t.trace(cc);
            }
            Err(e) => {
                e.trace(cc);
            }
        }
    }
}

impl<T: Collect> Collect for Vec<T> {
    /// A homogeneous ordered sequence needs tracing when its element type
    /// does, and visits its elements in sequence order.
    open spec fn needs_trace_spec() -> bool {
        T::needs_trace_spec()
    }

    open spec fn refs(&self) -> Seq<u64> {
        seq_refs(self@)
    }

    proof fn no_refs_when_untraced(&self) {
        if !T::needs_trace_spec() {
            lemma_seq_refs_untraced::<T>(self@);
        }
    }

    fn needs_trace() -> (b: bool) {
        T::needs_trace()
    }

    fn trace(&self, cc: &mut CollectionContext) {
        let ghost base: Seq<u64> = cc@;
        proof {
            lemma_concat_empty(base);
        }
        let n: usize = self.len();
        for i in 0..n
            invariant
                n == self@.len(),
                cc@ == base + seq_refs(self@.take(i as int)),
        {
            let t = &self[i];
            let ghost pre: Seq<u64> = seq_refs(self@.take(i as int));
            t.trace(cc);
            proof {
                assert(self@.take(i as int).push(self@[i as int]) =~= self@.take(i as int + 1));
                lemma_seq_refs_push(self@.take(i as int), self@[i as int]);
                assert((base + pre) + t.refs() =~= base + (pre + t.refs()));
            }
        }
        proof {
            assert(self@.take(n as int) =~= self@);
        }
    }
}

impl<T: Collect, const N: usize> Collect for [T; N] {
    /// A fixed-size array needs tracing when its element type does, and
    /// visits its elements in index order.
    open spec fn needs_trace_spec() -> bool {
        T::needs_trace_spec()
    }

    open spec fn refs(&self) -> Seq<u64> {
        seq_refs(self@)
    }

    proof fn no_refs_when_untraced(&self) {
        if !T::needs_trace_spec() {
            lemma_seq_refs_untraced::<T>(self@);
        }
    }

    fn needs_trace() -> (b: bool) {
        T::needs_trace()
    }

    fn trace(&self, cc: &mut CollectionContext) {
        let ghost base: Seq<u64> = cc@;
        proof {
            lemma_concat_empty(base);
        }
        for i in 0..N
            invariant
                cc@ == base + seq_refs(self@.take(i as int)),
        {
            let t = &self[i];
            let ghost pre: Seq<u64> = seq_refs(self@.take(i as int));
            t.trace(cc);
            proof {
                assert(self@.take(i as int).push(self@[i as int]) =~= self@.take(i as int + 1));
                lemma_seq_refs_push(self@.take(i as int), self@[i as int]);
                assert((base + pre) + t.refs() =~= base + (pre + t.refs()));
            }
        }
        proof {
            assert(self@.take(N as int) =~= self@);
        }
    }
}

impl<T: 'static> Collect for core::cell::Cell<T> {
    /// Interior mutability is opaque to tracing: a cell takes part only when
    /// its contents are proved free of arena-scoped lifetimes by the
    /// unconditional bound, and the traversal never looks inside. Contents
    /// that must hold managed references belong in a barrier-aware cell, an
    /// external collaborator.
    open spec fn needs_trace_spec() -> bool {
        false
    }

    open spec fn refs(&self) -> Seq<u64> {
        Seq::<u64>::empty()
    }

    proof fn no_refs_when_untraced(&self) {
    }

    fn needs_trace() -> (b: bool) {
        false
    }

    fn trace(&self, cc: &mut CollectionContext) {
        proof {
            lemma_concat_empty(cc@);
        }
    }
}

impl<T: 'static> Collect for core::cell::RefCell<T> {
    /// As for the plain cell: offered only under the unconditional bound,
    /// and never traced through.
    open spec fn needs_trace_spec() -> bool {
        false
    }

    open spec fn refs(&self) -> Seq<u64> {
        Seq::<u64>::empty()
    }

    proof fn no_refs_when_untraced(&self) {
    }

    fn needs_trace() -> (b: bool) {
        false
    }

    fn trace(&self, cc: &mut CollectionContext) {
        proof {
            lemma_concat_empty(cc@);
        }
    }
}

impl<A: Collect, B: Collect> Collect for (A, B) {
    /// A product of heterogeneous parts needs tracing when any part does,
    /// and visits every part in order.
    open spec fn needs_trace_spec() -> bool {
        A::needs_trace_spec() || B::needs_trace_spec()
    }

    open spec fn refs(&self) -> Seq<u64> {
        self.0.refs() + self.1.refs()
    }

    proof fn no_refs_when_untraced(&self) {
        if !Self::needs_trace_spec() {
            self.0.no_refs_when_untraced();
            self.1.no_refs_when_untraced();
            assert(self.refs() =~= Seq::<u64>::empty());
        }
    }

    fn needs_trace() -> (b: bool) {
        A::needs_trace() || B::needs_trace()
    }

    fn trace(&self, cc: &mut CollectionContext) {
        let ghost base: Seq<u64> = cc@;
        self.0.trace(cc);
        self.1.trace(cc);
        proof {
            assert((base + self.0.refs()) + self.1.refs() =~= base + (self.0.refs() + self.1.refs()));
        }
    }
}

impl<A: Collect, B: Collect, C: Collect> Collect for (A, B, C) {
    open spec fn needs_trace_spec() -> bool {
        A::needs_trace_spec() || B::needs_trace_spec() || C::needs_trace_spec()
    }

    open spec fn refs(&self) -> Seq<u64> {
        self.0.refs() + self.1.refs() + self.2.refs()
    }

    proof fn no_refs_when_untraced(&self) {
        if !Self::needs_trace_spec() {
            self.0.no_refs_when_untraced();
            self.1.no_refs_when_untraced();
            self.2.no_refs_when_untraced();
            assert(self.refs() =~= Seq::<u64>::empty());
        }
    }

    fn needs_trace() -> (b: bool) {
        A::needs_trace() || B::needs_trace() || C::needs_trace()
    }

    fn trace(&self, cc: &mut CollectionContext) {
        let ghost base: Seq<u64> = cc@;
        self.0.trace(cc);
        self.1.trace(cc);
        self.2.trace(cc);
        proof {
            assert(((base + self.0.refs()) + self.1.refs()) + self.2.refs()
                =~= base + (self.0.refs() + self.1.refs() + self.2.refs()));
        }
    }
}

impl<A: Collect, B: Collect, C: Collect, D: Collect> Collect for (A, B, C, D) {
    open spec fn needs_trace_spec() -> bool {
        A::needs_trace_spec() || B::needs_trace_spec() || C::needs_trace_spec()
            || D::needs_trace_spec()
    }

    open spec fn refs(&self) -> Seq<u64> {
        self.0.refs() + self.1.refs() + self.2.refs() + self.3.refs()
    }

    proof fn no_refs_when_untraced(&self) {
        if !Self::needs_trace_spec() {
            self.0.no_refs_when_untraced();
            self.1.no_refs_when_untraced();
            self.2.no_refs_when_untraced();
            self.3.no_refs_when_untraced();
            assert(self.refs() =~= Seq::<u64>::empty());
        }
    }

    fn needs_trace() -> (b: bool) {
        A::needs_trace() || B::needs_trace() || C::needs_trace() || D::needs_trace()
    }

    fn trace(&self, cc: &mut CollectionContext) {
        let ghost base: Seq<u64> = cc@;
        self.0.trace(cc);
        self.1.trace(cc);
        self.2.trace(cc);
        self.3.trace(cc);
        proof {
            assert((((base + self.0.refs()) + self.1.refs()) + self.2.refs()) + self.3.refs()
                =~= base + (self.0.refs() + self.1.refs() + self.2.refs() + self.3.refs()));
        }
    }
}

} // verus!
