//! Polymorphic coercion: widening a handle to an interface type.
//!
//! A handle over a concrete payload type may be widened to a handle that
//! exposes the payload only through the [`Capability`] interface. Widening is
//! purely a static-type operation on the handle: it takes no heap at all, so
//! it cannot touch the reference counter, move the payload, or allocate; the
//! identity of the underlying control block is preserved exactly. Calling the
//! capability through the widened handle is specified to yield the very value
//! the concrete handle's dereference yields it.

use vstd::prelude::*;

use crate::heap::release_step;
use crate::heap::Heap;
use crate::rc::Rc;

verus! {

/// The interface a payload may be widened to: one capability, a value the
/// payload answers with.
pub trait Capability {
    /// What the capability of this payload is.
    spec fn cap_spec(&self) -> u64;

    /// Answer with this payload's capability.
    fn capability(&self) -> (r: u64)
        ensures
            r == self.cap_spec(),
    ;
}

/// A plain number's capability is the number itself.
impl Capability for u64 {
    open spec fn cap_spec(&self) -> u64 {
        *self
    }

    fn capability(&self) -> (r: u64)
        ensures
            r == self.cap_spec(),
    {
        *self
    }
}

/// A handle widened to the [`Capability`] interface: the same owned share of
/// the same control block, dereferenced only through the interface.
pub struct IfaceRc<T: Capability> {
    inner: Rc<T>,
}

impl<T: Capability> Rc<T> {
    /// Widen this handle to the interface type. No heap is involved: the
    /// counter, the payload and the outstanding allocations cannot change,
    /// and the handle keeps addressing the very same control block.
    pub fn widen(self) -> (w: IfaceRc<T>)
        ensures
            w.addr() == self.addr(),
            forall|heap: Heap<T>| #[trigger] w.valid(heap) <==> self.valid(heap),
    {
        IfaceRc { inner: self }
    }
}

impl<T: Capability> IfaceRc<T> {
    /// The address of the control block this handle owns a share of.
    pub closed spec fn addr(self) -> int {
        self.inner.addr()
    }

    /// A live widened handle, exactly as for the concrete handle it was
    /// widened from.
    pub closed spec fn valid(self, heap: Heap<T>) -> bool {
        self.inner.valid(heap)
    }

    /// Call the capability through the widened handle: the result is the
    /// stored payload's capability, the same value a call through the
    /// concrete handle's dereference yields.
    pub fn capability(&self, heap: &Heap<T>) -> (r: u64)
        requires
            self.valid(*heap),
        ensures
            heap.stored(self.addr()) matches Some(v) && r == v.cap_spec(),
    {
        self.inner.get(heap).capability()
    }

    /// The current reference count of this handle's block.
    pub fn get_ref_count(this: &Self, heap: &Heap<T>) -> (c: usize)
        requires
            this.valid(*heap),
        ensures
            c as nat == heap.count(this.addr()),
    {
        Rc::get_ref_count(&this.inner, heap)
    }

    /// Release this handle's share, exactly as [`Rc::release`] does: the
    /// widened handle still owns one decrement-on-destruction obligation.
    pub fn release(self, heap: &mut Heap<T>)
        requires
            old(heap).wf(),
            self.valid(*old(heap)),
        ensures
            final(heap).wf(),
            release_step(*old(heap), *final(heap), self.addr()),
    {
        self.inner.release(heap);
    }
}

} // verus!
