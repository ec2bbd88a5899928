//! The capability protocol: a per-type descriptor with a static predicate
//! ("may this type ever contain a managed reference?") and a traversal
//! operation ("register every directly owned managed reference with the
//! collector").

use vstd::prelude::*;

verus! {

use crate::context::CollectionContext;

/// The capability protocol. A participating type answers, once and for all
/// instances, whether its values may transitively own managed references,
/// and knows how to register every managed reference it owns with the
/// collection capability of one mark pass.
///
/// Unverified code could only mark such a contract `unsafe` and trust each
/// implementer; here the obligation is discharged by proof: an implementation
/// must show that a type whose predicate is `false` owns no references at
/// all, and that its traversal registers exactly the references it owns.
pub trait Collect: Sized {
    /// May any value of this type, under any substitution of its parameters,
    /// transitively own a managed reference? A type-level fact: it does not
    /// depend on the instance.
    spec fn needs_trace_spec() -> bool;

    /// The traversal model: the identifiers of every managed reference this
    /// value transitively owns, one entry per owned occurrence, in the order
    /// a traversal registers them.
    spec fn refs(&self) -> Seq<u64>;

    /// The safety obligation behind the static predicate: a type that opts
    /// out of tracing must own nothing the collector could miss. Getting
    /// this wrong would let a live reference be reclaimed while reachable,
    /// so it is a proof every implementation owes.
    proof fn no_refs_when_untraced(&self)
        ensures
            !Self::needs_trace_spec() ==> self.refs() == Seq::<u64>::empty(),
    ;

    /// The static predicate, as executable code for the collector.
    fn needs_trace() -> (b: bool)
        ensures
            b == Self::needs_trace_spec(),
    ;

    /// Register every managed reference this value transitively owns, each
    /// exactly once, with the collection capability `cc`. The capability is
    /// borrowed for this one call and only ever appended to.
    fn trace(&self, cc: &mut CollectionContext)
        ensures
            final(cc)@ == old(cc)@ + self.refs(),
    ;
}

/// Appending an empty registration sequence changes nothing: the step that
/// discharges `trace` for every no-op traversal.
pub proof fn lemma_concat_empty(s: Seq<u64>)
    ensures
        s + Seq::<u64>::empty() == s,
{
    assert(s + Seq::<u64>::empty() =~= s);
}

/// The references owned by a sequence of values: each element's references
/// in element order. This is the traversal model shared by every ordered
/// container.
pub open spec fn seq_refs<T: Collect>(s: Seq<T>) -> Seq<u64>
    decreases s.len(),
{
    if s.len() == 0 {
        Seq::<u64>::empty()
    } else {
        seq_refs(s.drop_last()) + s.last().refs()
    }
}

/// Appending one value appends exactly that value's references.
pub proof fn lemma_seq_refs_push<T: Collect>(s: Seq<T>, t: T)
    ensures
        seq_refs(s.push(t)) == seq_refs(s) + t.refs(),
{
    assert(s.push(t).drop_last() =~= s);
    assert(s.push(t).last() == t);
}

/// A sequence over an untraced element type owns nothing.
pub proof fn lemma_seq_refs_untraced<T: Collect>(s: Seq<T>)
    requires
        !T::needs_trace_spec(),
    ensures
        seq_refs(s) == Seq::<u64>::empty(),
    decreases s.len(),
{
    if s.len() == 0 {
    } else {
        lemma_seq_refs_untraced::<T>(s.drop_last());
        s.last().no_refs_when_untraced();
        lemma_concat_empty(seq_refs(s.drop_last()));
    }
}

} // verus!
