//! The compositional laws of the capability protocol, stated for every
//! instantiation and proved from the impls.
//!
//! The traversal-order facts need no separate statement: `trace`'s contract
//! makes one call register exactly `refs`, each owned occurrence once, and
//! `refs` is fixed per type — ordered containers concatenate their
//! elements' traversals in element order (`seq_refs`), products visit their
//! components left to right, and a mapping visits key then value for every
//! entry (made explicit below).

use vstd::prelude::*;

verus! {

use vstd::std_specs::cmp::PartialEqSpec;

use crate::collect::Collect;
use crate::collect::lemma_seq_refs_push;
use crate::collect::seq_refs;
use crate::containers::GcMap;
use crate::containers::GcSet;
use crate::static_collect::StaticCollect;

/// Whatever the type, a value of a type that opts out of tracing owns no
/// managed references: the collector may skip it without missing anything.
pub proof fn lemma_untraced_owns_nothing<T: Collect>(t: &T)
    requires
        !T::needs_trace_spec(),
    ensures
        t.refs() == Seq::<u64>::empty(),
{
    t.no_refs_when_untraced();
}

/// A composite built purely from part types that never need tracing never
/// needs tracing itself, whichever composition rule put it together:
/// ownership wrappers, optional and fallible wrappers, sequences, arrays,
/// products, mappings and sets.
pub proof fn lemma_untraced_parts_compose<A: Collect, B: Collect, const N: usize>()
    requires
        !A::needs_trace_spec(),
        !B::needs_trace_spec(),
    ensures
        !<Box<A> as Collect>::needs_trace_spec(),
        !<std::rc::Rc<A> as Collect>::needs_trace_spec(),
        !<std::sync::Arc<A> as Collect>::needs_trace_spec(),
        !<Option<A> as Collect>::needs_trace_spec(),
        !<Result<A, B> as Collect>::needs_trace_spec(),
        !<Vec<A> as Collect>::needs_trace_spec(),
        !<[A; N] as Collect>::needs_trace_spec(),
        !<(A, B) as Collect>::needs_trace_spec(),
        !<GcMap<A, B> as Collect>::needs_trace_spec(),
        !<GcSet<A> as Collect>::needs_trace_spec(),
{
}

/// A composite containing at least one part type that needs tracing needs
/// tracing itself, wherever that part stands in the composition.
pub proof fn lemma_traced_part_composes<A: Collect, B: Collect, const N: usize>()
    requires
        A::needs_trace_spec(),
    ensures
        <Box<A> as Collect>::needs_trace_spec(),
        <std::rc::Rc<A> as Collect>::needs_trace_spec(),
        <std::sync::Arc<A> as Collect>::needs_trace_spec(),
        <Option<A> as Collect>::needs_trace_spec(),
        <Result<A, B> as Collect>::needs_trace_spec(),
        <Result<B, A> as Collect>::needs_trace_spec(),
        <Vec<A> as Collect>::needs_trace_spec(),
        <[A; N] as Collect>::needs_trace_spec(),
        <(A, B) as Collect>::needs_trace_spec(),
        <(B, A) as Collect>::needs_trace_spec(),
        <GcMap<A, B> as Collect>::needs_trace_spec(),
        <GcMap<B, A> as Collect>::needs_trace_spec(),
        <GcSet<A> as Collect>::needs_trace_spec(),
{
}

/// A mapping between plain key and value types owns no managed references:
/// its traversal registers nothing, however many entries it holds.
pub proof fn lemma_plain_map_empty_traversal<K: Collect, V: Collect>(m: &GcMap<K, V>)
    requires
        !K::needs_trace_spec(),
        !V::needs_trace_spec(),
    ensures
        m.refs() == Seq::<u64>::empty(),
{
    m.no_refs_when_untraced();
}

/// A mapping entry is visited key first, value second: appending the entry
/// `(k, v)` appends exactly the key's references followed by the value's to
/// the mapping's traversal.
pub proof fn lemma_map_entry_key_then_value<K: Collect, V: Collect>(s: Seq<(K, V)>, k: K, v: V)
    ensures
        seq_refs(s.push((k, v))) == seq_refs(s) + k.refs() + v.refs(),
{
    lemma_seq_refs_push(s, (k, v));
    assert(seq_refs(s) + (k.refs() + v.refs()) =~= seq_refs(s) + k.refs() + v.refs());
}

/// An escape-wrapped value of an arbitrary plain type never needs tracing,
/// and equality between two wrapped values is equality of their contents.
pub proof fn lemma_escape_wrapper<T: PartialEq + 'static>(a: &StaticCollect<T>, b: &StaticCollect<T>)
    ensures
        !<StaticCollect<T> as Collect>::needs_trace_spec(),
        a.eq_spec(b) == a.0.eq_spec(&b.0),
{
}

} // verus!
