//! Stepped computations adapted from one-time actions. A stepped computation
//! runs mutator work in discrete increments, each borrowing a mutation
//! capability for one call, so the collector may run incremental work between
//! increments. The two shapes here are intentionally one-shot: they give an
//! ordinary action the uniform "advance one step" interface under which
//! multi-step computations compose.

use vstd::prelude::*;

verus! {

use crate::collect::Collect;
use crate::collect::lemma_concat_empty;
use crate::context::CollectionContext;
use crate::context::Mutation;
use crate::static_collect::StaticCollect;

/// A stepped computation holding one not-yet-executed action, or nothing
/// once that action has run. Pending is the initial state; exhausted is
/// terminal, and stepping an exhausted computation is a caller fault that
/// the contract of `step` rules out.
#[must_use]
#[derive(Debug)]
pub struct SequenceFn<F>(Option<StaticCollect<F>>);

impl<F> SequenceFn<F> {
    /// The held action, while the computation is pending.
    pub closed spec fn pending(&self) -> Option<F> {
        match self.0 {
            Some(sc) => Some(sc.0),
            None => None,
        }
    }

    /// Still holding its action, as opposed to exhausted.
    pub open spec fn is_pending(&self) -> bool {
        self.pending() is Some
    }

    /// The held action; meaningful only while pending.
    pub open spec fn action(&self) -> F {
        self.pending().unwrap()
    }

    /// A fresh computation holding the one action `f`.
    pub fn new(f: F) -> (s: SequenceFn<F>)
        ensures
            s.pending() == Some(f),
    {
        SequenceFn(Some(StaticCollect(f)))
    }

    /// Whether the single unit of work has already been consumed.
    pub fn is_exhausted(&self) -> (b: bool)
        ensures
            b == !self.is_pending(),
    {
        self.0.is_none()
    }

    /// Advance one step, borrowing the mutation capability `mc` for this
    /// call alone: consumes the held action, runs it, and yields its result
    /// as the computation's single output. The computation is exhausted
    /// afterwards, and stepping it again is a caller bug, never silently
    /// absorbed: a verified caller is rejected outright, and an unverified
    /// one hits a fatal assertion.
    pub fn step<R>(&mut self, mc: Mutation) -> (r: Option<R>) where
        F: FnOnce(Mutation) -> R + 'static,

        requires
            old(self).is_pending(),
            call_requires(old(self).action(), (mc,)),
        ensures
            !final(self).is_pending(),
            r is Some,
            call_ensures(old(self).action(), (mc,), r.unwrap()),
    {
        let taken = self.0.take();
        match taken {
            Some(sc) => {
                let StaticCollect(f) = sc;
                Some(f(mc))
            }
            None => vstd::pervasive::unreached(),
        }
    }
}

/// Adapt the one-time action `f` into the stepped-computation shape.
pub fn from_fn<F, R>(f: F) -> (s: SequenceFn<F>) where
    F: FnOnce(Mutation) -> R + 'static,

    ensures
        s.pending() == Some(f),
{
    SequenceFn::new(f)
}

impl<F: 'static> Collect for SequenceFn<F> {
    /// The only content is an escape-wrapped action, so the computation
    /// itself never needs tracing.
    open spec fn needs_trace_spec() -> bool {
        false
    }

    open spec fn refs(&self) -> Seq<u64> {
        Seq::<u64>::empty()
    }

    proof fn no_refs_when_untraced(&self) {
    }

    fn needs_trace() -> (b: bool) {
        false
    }

    fn trace(&self, cc: &mut CollectionContext) {
        proof {
            lemma_concat_empty(cc@);
        }
    }
}

/// As `SequenceFn`, with captured auxiliary state handed to the action on
/// its one run. The captured state takes part in the capability protocol
/// while it waits.
#[must_use]
#[derive(Debug)]
pub struct SequenceFnWith<C, F>(Option<(C, StaticCollect<F>)>);

impl<C, F> SequenceFnWith<C, F> {
    /// The captured state and held action, while the computation is pending.
    pub closed spec fn pending(&self) -> Option<(C, F)> {
        match self.0 {
            Some(p) => Some((p.0, p.1.0)),
            None => None,
        }
    }

    /// Still holding its action, as opposed to exhausted.
    pub open spec fn is_pending(&self) -> bool {
        self.pending() is Some
    }

    /// The captured state; meaningful only while pending.
    pub open spec fn captured(&self) -> C {
        self.pending().unwrap().0
    }

    /// The held action; meaningful only while pending.
    pub open spec fn action(&self) -> F {
        self.pending().unwrap().1
    }

    /// A fresh computation holding the action `f` and captured state `c`.
    pub fn new(c: C, f: F) -> (s: SequenceFnWith<C, F>)
        ensures
            s.pending() == Some((c, f)),
    {
        SequenceFnWith(Some((c, StaticCollect(f))))
    }

    /// Whether the single unit of work has already been consumed.
    pub fn is_exhausted(&self) -> (b: bool)
        ensures
            b == !self.is_pending(),
    {
        self.0.is_none()
    }

    /// Advance one step: consumes the held action and captured state, runs
    /// the action on them under the mutation capability, and yields its
    /// result. Exhausted afterwards; stepping again is ruled out for
    /// verified callers and fails loudly if an unverified caller tries it
    /// anyway.
    pub fn step<R>(&mut self, mc: Mutation) -> (r: Option<R>) where
        F: FnOnce(Mutation, C) -> R + 'static,

        requires
            old(self).is_pending(),
            call_requires(old(self).action(), (mc, old(self).captured())),
        ensures
            !final(self).is_pending(),
            r is Some,
            call_ensures(old(self).action(), (mc, old(self).captured()), r.unwrap()),
    {
        let taken = self.0.take();
        match taken {
            Some(p) => {
                let (c, StaticCollect(f)) = p;
                Some(f(mc, c))
            }
            None => vstd::pervasive::unreached(),
        }
    }
}

/// Adapt the one-time action `f`, with captured state `c`, into the
/// stepped-computation shape.
pub fn from_fn_with<C, F, R>(c: C, f: F) -> (s: SequenceFnWith<C, F>) where
    C: Collect,
    F: FnOnce(Mutation, C) -> R + 'static,

    ensures
        s.pending() == Some((c, f)),
{
    SequenceFnWith::new(c, f)
}

impl<C: Collect, F: 'static> Collect for SequenceFnWith<C, F> {
    /// The escape-wrapped action never needs tracing; the captured state
    /// decides.
    open spec fn needs_trace_spec() -> bool {
        C::needs_trace_spec()
    }

    open spec fn refs(&self) -> Seq<u64> {
        match self.pending() {
            Some(p) => p.0.refs(),
            None => Seq::<u64>::empty(),
        }
    }

    proof fn no_refs_when_untraced(&self) {
        if !C::needs_trace_spec() {
            match self.pending() {
                Some(p) => {
                    p.0.no_refs_when_untraced();
                }
                None => {}
            }
        }
    }

    fn needs_trace() -> (b: bool) {
        C::needs_trace()
    }

    /// Visits the captured state while the computation still owns it; an
    /// exhausted computation owns nothing.
    fn trace(&self, cc: &mut CollectionContext) {
        match &self.0 {
            Some(p) => {
                p.0.trace(cc);
            }
            None => {
                proof {
                    lemma_concat_empty(cc@);
                }
            }
        }
    }
}

} // verus!
