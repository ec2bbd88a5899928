//! The static-escape wrapper: embeds a value of an arbitrary foreign type
//! inside a capability-bearing aggregate, on the proof — carried by the
//! unconditional lifetime bound — that the value can never itself hold a
//! managed reference.

use vstd::prelude::*;

verus! {

use vstd::std_specs::cmp::PartialEqSpec;
use vstd::std_specs::cmp::PartialEqSpecImpl;

use crate::collect::Collect;
use crate::collect::lemma_concat_empty;
use crate::context::CollectionContext;

/// A wrapper granting its contents the trivial ("never needs tracing")
/// capability. A managed reference always carries a bounded arena lifetime,
/// so it can never satisfy the unconditional bound the protocol impl below
/// demands; whatever does satisfy it is provably free of managed data.
#[derive(Debug, Clone)]
pub struct StaticCollect<T>(pub T);

impl<T: 'static> Collect for StaticCollect<T> {
    /// The unconditional bound is the proof that nothing inside is managed.
    open spec fn needs_trace_spec() -> bool {
        false
    }

    open spec fn refs(&self) -> Seq<u64> {
        Seq::<u64>::empty()
    }

    proof fn no_refs_when_untraced(&self) {
    }

    fn needs_trace() -> (b: bool) {
        false
    }

    fn trace(&self, cc: &mut CollectionContext) {
        proof {
            lemma_concat_empty(cc@);
        }
    }
}

impl<T: PartialEq> PartialEq for StaticCollect<T> {
    /// Equality delegates structurally to the wrapped value.
    fn eq(&self, other: &Self) -> (r: bool) {
        self.0 == other.0
    }
}

impl<T: PartialEq> PartialEqSpecImpl for StaticCollect<T> {
    open spec fn obeys_eq_spec() -> bool {
        T::obeys_eq_spec()
    }

    open spec fn eq_spec(&self, other: &Self) -> bool {
        self.0.eq_spec(&other.0)
    }
}

} // verus!
