//! The capability tokens that the arena and the collector hand to one call:
//! a mutation capability for mutator-side work, and a collection capability
//! for one traversal pass.

use vstd::prelude::*;

verus! {

/// The mutation capability: a token granting the right to mutate or allocate
/// for the duration of a single call. It is supplied by the arena, borrowed
/// for one trace invocation or one step of a stepped computation, and never
/// stored.
#[derive(Clone, Copy)]
pub struct Mutation {}

impl Mutation {
    /// Issue a mutation capability for one call. In a full system the arena
    /// alone would do this; the token itself carries no state.
    pub fn new() -> Mutation {
        Mutation {}
    }
}

/// The collection capability handed to one traversal call. The only thing a
/// traversal may do with it is register the managed references it finds; the
/// registration order is the traversal order of the mark pass.
pub struct CollectionContext {
    marked: Vec<u64>,
}

impl View for CollectionContext {
    type V = Seq<u64>;

    closed spec fn view(&self) -> Seq<u64> {
        self.marked@
    }
}

impl CollectionContext {
    /// A fresh collection capability with nothing registered yet.
    pub fn new() -> (cc: CollectionContext)
        ensures
            cc@ == Seq::<u64>::empty(),
    {
        CollectionContext { marked: Vec::new() }
    }

    /// Register one managed reference as reachable from the value under
    /// traversal.
    pub fn mark(&mut self, id: u64)
        ensures
            final(self)@ == old(self)@.push(id),
    {
        self.marked.push(id);
    }

    /// How many registrations this pass has recorded so far.
    pub fn marked_len(&self) -> (n: usize)
        ensures
            n == self@.len(),
    {
        self.marked.len()
    }

    /// The identifier registered at position `i` of this pass.
    pub fn marked_at(&self, i: usize) -> (id: u64)
        requires
            i < self@.len(),
        ensures
            id == self@[i as int],
    {
        self.marked[i]
    }
}

} // verus!
