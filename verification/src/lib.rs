//! A tracing-garbage-collection capability protocol: value graphs declare
//! whether they may hold managed references, and enumerate those references
//! for a collector's mark phase; plus a stepped-computation abstraction for
//! running mutator work in bounded increments between collector passes.

pub mod bounded;
pub mod collect;
pub mod collect_impl;
pub mod containers;
pub mod context;
pub mod gc;
pub mod laws;
pub mod no_drop;
pub mod sequence_fn;
pub mod static_collect;

pub use bounded::GcRefBuffer;
pub use collect::Collect;
pub use containers::GcMap;
pub use containers::GcSet;
pub use context::CollectionContext;
pub use context::Mutation;
pub use gc::Gc;
pub use no_drop::MustNotImplDrop;
pub use sequence_fn::SequenceFn;
pub use sequence_fn::SequenceFnWith;
pub use sequence_fn::from_fn;
pub use sequence_fn::from_fn_with;
pub use static_collect::StaticCollect;
