//! The no-finalizer guard. A type may not both take part in the capability
//! protocol and define a destructor: a finalizer could run after a collection
//! pass and observe a managed reference whose target is already reclaimed.
//!
//! The guard wants to be a compile-time contradiction: a blanket impl of
//! `MustNotImplDrop` for every type with a destructor, conflicting with the
//! impl each protocol participant declares for itself. The verifier refuses
//! `Drop` as a trait bound, so the blanket half cannot be written; what
//! remains is the marker, which every participant in this crate declares
//! and none of whose declaring types defines a destructor.

use vstd::prelude::*;

verus! {

use crate::bounded::GcRefBuffer;
use crate::containers::GcMap;
use crate::containers::GcSet;
use crate::gc::Gc;
use crate::sequence_fn::SequenceFn;
use crate::sequence_fn::SequenceFnWith;
use crate::static_collect::StaticCollect;

/// Declared by every protocol participant: the promise that the type
/// defines no destructor, so no code of its own can run during or after
/// reclamation.
pub trait MustNotImplDrop {}

impl MustNotImplDrop for Gc {
}

impl MustNotImplDrop for GcRefBuffer {
}

impl<T> MustNotImplDrop for StaticCollect<T> {
}

impl<K, V> MustNotImplDrop for GcMap<K, V> {
}

impl<T> MustNotImplDrop for GcSet<T> {
}

impl<F> MustNotImplDrop for SequenceFn<F> {
}

impl<C, F> MustNotImplDrop for SequenceFnWith<C, F> {
}

} // verus!
