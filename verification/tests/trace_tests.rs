//! The capability protocol exercised on concrete value graphs: which types
//! need tracing, and what one traversal call registers.

use gc_trace::Collect;
use gc_trace::CollectionContext;
use gc_trace::Gc;
use gc_trace::GcMap;
use gc_trace::GcRefBuffer;
use gc_trace::GcSet;
use gc_trace::StaticCollect;

fn marks(cc: &CollectionContext) -> Vec<u64> {
    let mut out: Vec<u64> = Vec::new();
    let mut i: usize = 0;
    while i < cc.marked_len() {
        out.push(cc.marked_at(i));
        i += 1;
    }
    out
}

#[test]
fn plain_array_needs_no_trace() {
    assert!(!<[u32; 4] as Collect>::needs_trace());
}

#[test]
fn tuple_of_text_needs_no_trace() {
    assert!(!<(String, String) as Collect>::needs_trace());
}

#[test]
fn sequence_of_optional_refs_needs_trace() {
    assert!(<Vec<Option<Gc>> as Collect>::needs_trace());
}

#[test]
fn wrappers_delegate_needs_trace() {
    assert!(<Box<Gc> as Collect>::needs_trace());
    assert!(<std::rc::Rc<Gc> as Collect>::needs_trace());
    assert!(!<std::sync::Arc<u8> as Collect>::needs_trace());
    assert!(!<Option<u64> as Collect>::needs_trace());
    assert!(<Result<u8, Gc> as Collect>::needs_trace());
    assert!(!<Result<u8, i64> as Collect>::needs_trace());
}

#[test]
fn cells_opt_out_of_tracing() {
    assert!(!<core::cell::Cell<u32> as Collect>::needs_trace());
    assert!(!<core::cell::RefCell<String> as Collect>::needs_trace());
}

#[test]
fn escape_wrapper_never_needs_trace() {
    assert!(!<StaticCollect<String> as Collect>::needs_trace());
    assert!(!<StaticCollect<Vec<u64>> as Collect>::needs_trace());
}

#[test]
fn escape_wrapper_equality_is_content_equality() {
    assert!(StaticCollect(5u32) == StaticCollect(5u32));
    assert!(StaticCollect(5u32) != StaticCollect(6u32));
    assert!(StaticCollect(String::from("a")) == StaticCollect(String::from("a")));
    assert!(StaticCollect(String::from("a")) != StaticCollect(String::from("b")));
}

#[test]
fn traversal_visits_nested_structure_in_order() {
    let value = (
        Gc::new(1),
        vec![Some(Gc::new(2)), None, Some(Gc::new(3))],
        String::from("leaf"),
    );
    let mut cc = CollectionContext::new();
    value.trace(&mut cc);
    assert_eq!(marks(&cc), vec![1, 2, 3]);
}

#[test]
fn empty_sequence_has_empty_traversal() {
    let v: Vec<Gc> = Vec::new();
    let mut cc = CollectionContext::new();
    v.trace(&mut cc);
    assert_eq!(cc.marked_len(), 0);
}

#[test]
fn box_forwards_to_contents() {
    let b = Box::new(Gc::new(9));
    let mut cc = CollectionContext::new();
    b.trace(&mut cc);
    assert_eq!(marks(&cc), vec![9]);
}

#[test]
fn shared_wrapper_traced_once_per_visiting_call() {
    let r = std::rc::Rc::new(Gc::new(4));
    let mut cc = CollectionContext::new();
    r.trace(&mut cc);
    assert_eq!(marks(&cc), vec![4]);
    r.trace(&mut cc);
    assert_eq!(marks(&cc), vec![4, 4]);
}

#[test]
fn result_traces_the_present_alternative() {
    let ok: Result<Gc, Gc> = Ok(Gc::new(1));
    let err: Result<Gc, Gc> = Err(Gc::new(2));
    let mut cc = CollectionContext::new();
    ok.trace(&mut cc);
    err.trace(&mut cc);
    assert_eq!(marks(&cc), vec![1, 2]);
}

#[test]
fn array_traces_every_element() {
    let a: [Gc; 3] = [Gc::new(7), Gc::new(8), Gc::new(9)];
    let mut cc = CollectionContext::new();
    a.trace(&mut cc);
    assert_eq!(marks(&cc), vec![7, 8, 9]);
}

#[test]
fn boxed_slice_traces_every_element() {
    let b: Box<[Gc]> = vec![Gc::new(2), Gc::new(4)].into_boxed_slice();
    assert!(<Box<[Gc]> as Collect>::needs_trace());
    let mut cc = CollectionContext::new();
    b.trace(&mut cc);
    assert_eq!(marks(&cc), vec![2, 4]);
}

#[test]
fn wide_product_visits_every_component() {
    assert!(<(u8, u16, u32, Gc) as Collect>::needs_trace());
    let value = (Gc::new(1), 5u8, Gc::new(2), vec![Gc::new(3)]);
    let mut cc = CollectionContext::new();
    value.trace(&mut cc);
    assert_eq!(marks(&cc), vec![1, 2, 3]);
}

#[test]
fn plain_mapping_has_empty_traversal() {
    let mut m: GcMap<u32, String> = GcMap::new();
    m.insert(1, String::from("one"));
    m.insert(2, String::from("two"));
    assert_eq!(m.len(), 2);
    assert!(!<GcMap<u32, String> as Collect>::needs_trace());
    let mut cc = CollectionContext::new();
    m.trace(&mut cc);
    assert_eq!(cc.marked_len(), 0);
}

#[test]
fn mapping_visits_key_then_value_per_entry() {
    let mut m: GcMap<Gc, Gc> = GcMap::new();
    m.insert(Gc::new(1), Gc::new(2));
    m.insert(Gc::new(3), Gc::new(4));
    assert!(<GcMap<Gc, Gc> as Collect>::needs_trace());
    let mut cc = CollectionContext::new();
    m.trace(&mut cc);
    assert_eq!(marks(&cc), vec![1, 2, 3, 4]);
}

#[test]
fn mapping_with_traced_values_only() {
    let mut m: GcMap<u32, Gc> = GcMap::new();
    m.insert(10, Gc::new(5));
    m.insert(20, Gc::new(6));
    let mut cc = CollectionContext::new();
    m.trace(&mut cc);
    assert_eq!(marks(&cc), vec![5, 6]);
}

#[test]
fn set_visits_every_element_in_insertion_order() {
    let mut s: GcSet<Gc> = GcSet::new();
    s.insert(Gc::new(5));
    s.insert(Gc::new(6));
    assert_eq!(s.len(), 2);
    let mut cc = CollectionContext::new();
    s.trace(&mut cc);
    assert_eq!(marks(&cc), vec![5, 6]);
}

#[test]
fn bounded_buffer_traces_in_order() {
    let mut b = GcRefBuffer::new();
    assert!(b.push(Gc::new(4)));
    assert!(b.push(Gc::new(5)));
    assert!(b.push(Gc::new(6)));
    assert_eq!(b.len(), 3);
    assert_eq!(b.get(1).id, 5);
    assert!(<GcRefBuffer as Collect>::needs_trace());
    let mut cc = CollectionContext::new();
    b.trace(&mut cc);
    assert_eq!(marks(&cc), vec![4, 5, 6]);
}

#[test]
fn bounded_buffer_rejects_past_capacity() {
    let mut b = GcRefBuffer::new();
    let mut id: u64 = 0;
    while id < 32 {
        assert!(b.push(Gc::new(id)));
        id += 1;
    }
    assert!(!b.push(Gc::new(99)));
    assert_eq!(b.len(), 32);
    assert_eq!(b.get(31).id, 31);
}
