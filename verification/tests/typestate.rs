use rc_store::heap::Heap;
use rc_store::rc::Rc;
use rc_store::rc::UninitRc;
use rc_store::widen::Capability;

#[test]
fn construct_uninitialized_then_write_in_place() {
    let mut heap: Heap<u64> = Heap::new();
    let u = Rc::try_new_uninit(&mut heap).unwrap();
    assert_eq!(heap.outstanding_allocations(), 1);
    assert_eq!(UninitRc::get_ref_count(&u, &heap), 1);
    u.write(&mut heap, 0xABCDu64);
    let h = u.assume_init(&heap);
    assert_eq!(*h.get(&heap), 0xABCD);
    assert_eq!(Rc::get_ref_count(&h, &heap), 1);
    h.release(&mut heap);
    assert_eq!(heap.outstanding_allocations(), 0);
}

#[test]
fn uninitialized_handle_releases_its_block() {
    let mut heap: Heap<u64> = Heap::new();
    let u = Rc::new_uninit(&mut heap);
    assert_eq!(heap.outstanding_allocations(), 1);
    u.release(&mut heap);
    assert_eq!(heap.outstanding_allocations(), 0);
}

#[test]
fn reclaimed_value_observes_the_written_payload() {
    let mut heap: Heap<u64> = Heap::new();
    let u = Rc::new_uninit(&mut heap);
    u.write(&mut heap, 3u64);
    u.write(&mut heap, 4u64);
    let h = u.assume_init(&heap);
    assert_eq!(Rc::into_inner(h, &mut heap), Some(4));
    assert_eq!(heap.outstanding_allocations(), 0);
}

#[test]
fn widening_preserves_dereferenced_behavior() {
    let mut heap: Heap<u64> = Heap::new();
    let h = Rc::new(9u64, &mut heap);
    let through_concrete = h.get(&heap).capability();
    let before = heap.outstanding_allocations();
    let w = h.widen();
    assert_eq!(heap.outstanding_allocations(), before);
    assert_eq!(w.capability(&heap), through_concrete);
    assert_eq!(w.capability(&heap), 9);
    w.release(&mut heap);
    assert_eq!(heap.outstanding_allocations(), 0);
}

#[test]
fn widening_does_not_touch_the_counter() {
    let mut heap: Heap<u64> = Heap::new();
    let h = Rc::new(1u64, &mut heap);
    let d = h.duplicate(&mut heap);
    assert_eq!(Rc::get_ref_count(&h, &heap), 2);
    let w = d.widen();
    assert_eq!(Rc::get_ref_count(&h, &heap), 2);
    assert_eq!(rc_store::widen::IfaceRc::get_ref_count(&w, &heap), 2);
    w.release(&mut heap);
    assert_eq!(Rc::get_ref_count(&h, &heap), 1);
    h.release(&mut heap);
    assert_eq!(heap.outstanding_allocations(), 0);
}
