//! The managed reference: the one value the mark phase is looking for.

use vstd::prelude::*;

verus! {

use crate::collect::Collect;
use crate::context::CollectionContext;

/// A managed reference: a pointer into collector-owned memory, valid only
/// for the arena session that produced it. The model keeps the identifier
/// of the owned cell; the arena that hands these out is an external
/// collaborator.
#[derive(Clone, Copy, PartialEq, Eq, Structural, Debug)]
pub struct Gc {
    /// The identifier of the collector-owned cell this reference points to.
    pub id: u64,
}

impl Gc {
    /// The reference the arena would hand out for cell `id`.
    pub fn new(id: u64) -> (g: Gc)
        ensures
            g.id == id,
    {
        Gc { id }
    }
}

impl Collect for Gc {
    /// A managed reference is the very thing tracing exists for.
    open spec fn needs_trace_spec() -> bool {
        true
    }

    open spec fn refs(&self) -> Seq<u64> {
        seq![self.id]
    }

    proof fn no_refs_when_untraced(&self) {
    }

    fn needs_trace() -> (b: bool) {
        true
    }

    /// Traversal registers the referenced cell itself.
    fn trace(&self, cc: &mut CollectionContext) {
        let ghost base: Seq<u64> = cc@;
        cc.mark(self.id);
        proof {
            assert(base.push(self.id) =~= base + self.refs());
        }
    }
}

} // verus!
