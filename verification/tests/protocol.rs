use rc_store::heap::Heap;
use rc_store::rc::Rc;

#[test]
fn construct_then_reclaim_returns_value() {
    let mut heap: Heap<u64> = Heap::new();
    assert_eq!(heap.outstanding_allocations(), 0);
    let h = Rc::try_new(42u64, &mut heap).unwrap();
    assert_eq!(heap.outstanding_allocations(), 1);
    match Rc::try_unwrap(h, &mut heap) {
        Ok(v) => assert_eq!(v, 42),
        Err(_) => panic!("expected the unique owner to reclaim"),
    }
    assert_eq!(heap.outstanding_allocations(), 0);
}

#[test]
fn ref_count_tracks_duplicates_and_releases() {
    let mut heap: Heap<&str> = Heap::new();
    let h = Rc::try_new("shared", &mut heap).unwrap();
    assert_eq!(Rc::get_ref_count(&h, &heap), 1);
    let d1 = h.duplicate(&mut heap);
    assert_eq!(Rc::get_ref_count(&h, &heap), 2);
    let d2 = h.duplicate(&mut heap);
    assert_eq!(Rc::get_ref_count(&d1, &heap), 3);
    d1.release(&mut heap);
    assert_eq!(Rc::get_ref_count(&h, &heap), 2);
    d2.release(&mut heap);
    assert_eq!(Rc::get_ref_count(&h, &heap), 1);
    h.release(&mut heap);
    assert_eq!(heap.outstanding_allocations(), 0);
}

#[test]
fn release_all_owners_frees_exactly_once() {
    let mut heap: Heap<u32> = Heap::new();
    let h = Rc::new(7u32, &mut heap);
    let a = h.duplicate(&mut heap);
    let b = h.duplicate(&mut heap);
    let c = h.duplicate(&mut heap);
    assert_eq!(Rc::get_ref_count(&h, &heap), 4);
    assert_eq!(heap.outstanding_allocations(), 1);
    // Release in an order unlike the order of creation.
    b.release(&mut heap);
    assert_eq!(heap.outstanding_allocations(), 1);
    h.release(&mut heap);
    assert_eq!(heap.outstanding_allocations(), 1);
    c.release(&mut heap);
    assert_eq!(heap.outstanding_allocations(), 1);
    assert_eq!(Rc::get_ref_count(&a, &heap), 1);
    a.release(&mut heap);
    assert_eq!(heap.outstanding_allocations(), 0);
}

#[test]
fn try_unwrap_on_shared_block_changes_nothing() {
    let mut heap: Heap<u64> = Heap::new();
    let h = Rc::try_new(5u64, &mut heap).unwrap();
    let d = h.duplicate(&mut heap);
    assert_eq!(Rc::get_ref_count(&h, &heap), 2);
    let d = match Rc::try_unwrap(d, &mut heap) {
        Ok(_) => panic!("the block has two owners"),
        Err(handle) => handle,
    };
    assert_eq!(Rc::get_ref_count(&d, &heap), 2);
    assert_eq!(heap.outstanding_allocations(), 1);
    assert_eq!(*d.get(&heap), 5);
    d.release(&mut heap);
    h.release(&mut heap);
    assert_eq!(heap.outstanding_allocations(), 0);
}

#[test]
fn into_inner_unique_returns_value() {
    let mut heap: Heap<u64> = Heap::new();
    let h = Rc::new(11u64, &mut heap);
    assert_eq!(Rc::into_inner(h, &mut heap), Some(11));
    assert_eq!(heap.outstanding_allocations(), 0);
}

#[test]
fn into_inner_shared_releases_and_returns_nothing() {
    let mut heap: Heap<u64> = Heap::new();
    let h = Rc::new(11u64, &mut heap);
    let d = h.duplicate(&mut heap);
    assert_eq!(Rc::into_inner(d, &mut heap), None);
    assert_eq!(Rc::get_ref_count(&h, &heap), 1);
    assert_eq!(heap.outstanding_allocations(), 1);
    assert_eq!(Rc::into_inner(h, &mut heap), Some(11));
    assert_eq!(heap.outstanding_allocations(), 0);
}

#[test]
fn tracking_allocator_scenario() {
    let mut heap: Heap<i32> = Heap::new();
    assert_eq!(heap.outstanding_allocations(), 0);
    let h = Rc::new(42i32, &mut heap);
    assert_eq!(heap.outstanding_allocations(), 1);
    let d = h.duplicate(&mut heap);
    assert_eq!(Rc::get_ref_count(&h, &heap), 2);
    assert_eq!(heap.outstanding_allocations(), 1);
    d.release(&mut heap);
    assert_eq!(Rc::get_ref_count(&h, &heap), 1);
    assert_eq!(heap.outstanding_allocations(), 1);
    h.release(&mut heap);
    assert_eq!(heap.outstanding_allocations(), 0);
}

#[test]
fn failing_allocator_reports_the_failure() {
    let mut heap: Heap<u64> = Heap::failing();
    assert!(Rc::try_new(1u64, &mut heap).is_err());
    assert_eq!(heap.outstanding_allocations(), 0);
    assert!(Rc::<u64>::try_new_uninit(&mut heap).is_err());
    assert_eq!(heap.outstanding_allocations(), 0);
}

#[test]
fn dereference_reads_the_shared_payload() {
    let mut heap: Heap<String> = Heap::new();
    let h = Rc::new(String::from("payload"), &mut heap);
    let d = h.duplicate(&mut heap);
    assert_eq!(h.get(&heap).as_str(), "payload");
    assert_eq!(d.get(&heap).as_str(), "payload");
    h.release(&mut heap);
    assert_eq!(d.get(&heap).as_str(), "payload");
    d.release(&mut heap);
    assert_eq!(heap.outstanding_allocations(), 0);
}
