//! Stepped computations: one advance yields the single output; the
//! exhausted state is observable; the pending captured state takes part in
//! tracing.

use gc_trace::Collect;
use gc_trace::CollectionContext;
use gc_trace::Gc;
use gc_trace::Mutation;
use gc_trace::SequenceFn;
use gc_trace::SequenceFnWith;
use gc_trace::from_fn;
use gc_trace::from_fn_with;

fn needs_trace_of<T: Collect>(_value: &T) -> bool {
    T::needs_trace()
}

#[test]
fn one_shot_action_doubles_captured_state() {
    let mut s = from_fn_with(42u64, |_mc: Mutation, c: u64| c * 2);
    assert!(!s.is_exhausted());
    let r = s.step(Mutation::new());
    assert_eq!(r, Some(84));
    assert!(s.is_exhausted());
}

#[test]
fn plain_action_yields_its_single_output() {
    let mut s = from_fn(|_mc: Mutation| 7u32);
    let r = s.step(Mutation::new());
    assert_eq!(r, Some(7));
    assert!(s.is_exhausted());
}

#[test]
fn constructors_agree_with_adapters() {
    let mut a = SequenceFn::new(|_mc: Mutation| String::from("done"));
    assert_eq!(a.step(Mutation::new()), Some(String::from("done")));
    let mut b = SequenceFnWith::new(3u64, |_mc: Mutation, c: u64| c + 1);
    assert_eq!(b.step(Mutation::new()), Some(4));
}

#[test]
fn pending_captured_state_is_traced_until_consumed() {
    let mut s = from_fn_with(Gc::new(11), |_mc: Mutation, c: Gc| c.id);
    assert!(needs_trace_of(&s));
    let mut cc = CollectionContext::new();
    s.trace(&mut cc);
    assert_eq!(cc.marked_len(), 1);
    assert_eq!(cc.marked_at(0), 11);

    let r = s.step(Mutation::new());
    assert_eq!(r, Some(11));
    let mut after = CollectionContext::new();
    s.trace(&mut after);
    assert_eq!(after.marked_len(), 0);
}

#[test]
fn plain_stepped_computation_needs_no_trace() {
    let s = from_fn(|_mc: Mutation| 0u8);
    assert!(!needs_trace_of(&s));
}
