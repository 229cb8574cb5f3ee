//! The owning handles: the user-facing shared-ownership pointer values.
//!
//! An [`Rc`] references one control block in a [`Heap`] and owns exactly one
//! decrement-on-destruction obligation for it; many handles may reference the
//! same block, none privileged. An [`UninitRc`] is the distinct type-state of
//! a handle whose payload region is reserved and counted but not yet written;
//! it becomes an [`Rc`] only through the explicit [`UninitRc::assume_init`]
//! transition, once a payload is in place.
//!
//! The handle type is deliberately single-threaded: the counter read-modify-
//! write below is unsynchronized, so a handle must never be shared across
//! threads. Every operation names the heap it works against, which ties each
//! handle to one thread of execution by ordinary ownership.

use vstd::prelude::*;

use core::marker::PhantomData;

use crate::heap::alloc_step;
use crate::heap::dealloc_step;
use crate::heap::decrement_step;
use crate::heap::increment_step;
use crate::heap::release_step;
use crate::heap::write_step;
use crate::heap::AllocError;
use crate::heap::Heap;

verus! {

/// An owning handle to one control block of `heap`: the shared-ownership
/// pointer value of this design. The marker field keeps the handle off the
/// thread-transfer and thread-share traits, since its counter updates are
/// unsynchronized.
pub struct Rc<T> {
    addr: usize,
    _payload: PhantomData<T>,
    _single_thread: PhantomData<std::rc::Rc<()>>,
}

/// An owning handle to a block whose payload region is still uninitialized.
pub struct UninitRc<T> {
    addr: usize,
    _payload: PhantomData<T>,
    _single_thread: PhantomData<std::rc::Rc<()>>,
}

impl<T> Rc<T> {
    /// The address of the control block this handle owns a share of.
    pub closed spec fn addr(self) -> int {
        self.addr as int
    }

    /// A live handle: its block exists, holds a payload, and counts at least
    /// this owner. Constructors establish it; every operation keeps it for
    /// the handles that remain.
    pub open spec fn valid(self, heap: Heap<T>) -> bool {
        &&& heap.live(self.addr())
        &&& heap.initialized(self.addr())
        &&& heap.count(self.addr()) >= 1
    }

    /// Construct: allocate a fresh block, write a counter of one and `value`
    /// into place, and return the handle that owns the block. On allocator
    /// failure nothing is leaked, no handle is produced, and the heap is
    /// exactly as it was.
    pub fn try_new(value: T, heap: &mut Heap<T>) -> (r: Result<Rc<T>, AllocError>)
        requires
            old(heap).wf(),
        ensures
            final(heap).wf(),
            old(heap).grants_allocation() ==> (r matches Ok(h) && h.addr() == old(heap).next_addr()
                && h.valid(*final(heap))
                && alloc_step(*old(heap), *final(heap), h.addr(), Some(value))),
            !old(heap).grants_allocation() ==> (r is Err && *final(heap) == *old(heap)),
    {
        match heap.allocate(Some(value)) {
            Ok(a) => Ok(Rc { addr: a, _payload: PhantomData, _single_thread: PhantomData }),
            Err(e) => Err(e),
        }
    }

    /// Construct-Uninitialized: allocate and count a fresh block but leave the
    /// payload region unwritten, for a caller that initializes it in place.
    pub fn try_new_uninit(heap: &mut Heap<T>) -> (r: Result<UninitRc<T>, AllocError>)
        requires
            old(heap).wf(),
        ensures
            final(heap).wf(),
            old(heap).grants_allocation() ==> (r matches Ok(h) && h.addr() == old(heap).next_addr()
                && alloc_step(*old(heap), *final(heap), h.addr(), None::<T>)),
            !old(heap).grants_allocation() ==> (r is Err && *final(heap) == *old(heap)),
    {
        match heap.allocate(None) {
            Ok(a) => Ok(UninitRc { addr: a, _payload: PhantomData, _single_thread: PhantomData }),
            Err(e) => Err(e),
        }
    }

    /// Construct, for callers with no recovery path: the allocator is
    /// required to grant the request, so no failure can be observed.
    pub fn new(value: T, heap: &mut Heap<T>) -> (h: Rc<T>)
        requires
            old(heap).wf(),
            old(heap).grants_allocation(),
        ensures
            final(heap).wf(),
            h.addr() == old(heap).next_addr(),
            h.valid(*final(heap)),
            alloc_step(*old(heap), *final(heap), h.addr(), Some(value)),
    {
        match Self::try_new(value, heap) {
            Ok(h) => h,
            Err(_) => vstd::pervasive::unreached(),
        }
    }

    /// Construct-Uninitialized, for callers with no recovery path.
    #[must_use]
    pub fn new_uninit(heap: &mut Heap<T>) -> (h: UninitRc<T>)
        requires
            old(heap).wf(),
            old(heap).grants_allocation(),
        ensures
            final(heap).wf(),
            h.addr() == old(heap).next_addr(),
            alloc_step(*old(heap), *final(heap), h.addr(), None::<T>),
    {
        match Self::try_new_uninit(heap) {
            Ok(h) => h,
            Err(_) => vstd::pervasive::unreached(),
        }
    }

    /// Duplicate: a new handle to the same block, with the counter raised by
    /// exactly one. Never allocates, never fails, never touches the payload.
    /// The counter must stay below the machine word: a bound no program can
    /// reach, since each count is owed to a distinct live handle.
    pub fn duplicate(&self, heap: &mut Heap<T>) -> (h: Rc<T>)
        requires
            old(heap).wf(),
            self.valid(*old(heap)),
            old(heap).count(self.addr()) < usize::MAX,
        ensures
            final(heap).wf(),
            h.addr() == self.addr(),
            h.valid(*final(heap)),
            increment_step(*old(heap), *final(heap), self.addr()),
    {
        heap.increment(self.addr);
        Rc { addr: self.addr, _payload: PhantomData, _single_thread: PhantomData }
    }

    /// Release: give this handle's share of the block back. The release that
    /// observes a counter of one tears the payload down and returns the block
    /// to the allocator; any other release only lowers the counter, and the
    /// payload stays alive for the remaining owners.
    pub fn release(self, heap: &mut Heap<T>)
        requires
            old(heap).wf(),
            self.valid(*old(heap)),
        ensures
            final(heap).wf(),
            release_step(*old(heap), *final(heap), self.addr()),
    {
        let c = heap.read_count(self.addr);
        if c == 1 {
            let _ = heap.free(self.addr);
        } else {
            heap.decrement(self.addr);
        }
    }

    /// TryReclaim: if this handle is the only owner, move the payload out
    /// (bypassing its teardown), return the block to the allocator, and hand
    /// the payload to the caller. Otherwise return the handle unchanged: no
    /// mutation, no side effect, the payload untouched.
    pub fn try_unwrap(this: Self, heap: &mut Heap<T>) -> (r: Result<T, Rc<T>>)
        requires
            old(heap).wf(),
            this.valid(*old(heap)),
        ensures
            final(heap).wf(),
            old(heap).count(this.addr()) == 1 ==> (r matches Ok(v)
                && Some(v) == old(heap).stored(this.addr())
                && dealloc_step(*old(heap), *final(heap), this.addr())),
            old(heap).count(this.addr()) != 1 ==> (r matches Err(h) && h == this
                && *final(heap) == *old(heap)),
    {
        let c = heap.read_count(this.addr);
        if c == 1 {
            match heap.free(this.addr) {
                Some(v) => Ok(v),
                None => vstd::pervasive::unreached(),
            }
        } else {
            Err(this)
        }
    }

    /// TryReclaim, discarding the handle when uniqueness does not hold: the
    /// payload is returned if this handle was the only owner; otherwise the
    /// handle's share is released and nothing is returned.
    pub fn into_inner(this: Self, heap: &mut Heap<T>) -> (r: Option<T>)
        requires
            old(heap).wf(),
            this.valid(*old(heap)),
        ensures
            final(heap).wf(),
            old(heap).count(this.addr()) == 1 ==> (r == old(heap).stored(this.addr())
                && dealloc_step(*old(heap), *final(heap), this.addr())),
            old(heap).count(this.addr()) != 1 ==> (r is None
                && decrement_step(*old(heap), *final(heap), this.addr())),
    {
        match Self::try_unwrap(this, heap) {
            Ok(v) => Some(v),
            Err(h) => {
                h.release(heap);
                None
            },
        }
    }

    /// Dereference: read-only access to the shared payload. No safe mutable
    /// access exists, consistent with shared ownership.
    pub fn get<'a>(&self, heap: &'a Heap<T>) -> (r: &'a T)
        requires
            self.valid(*heap),
        ensures
            heap.stored(self.addr()) == Some(*r),
    {
        heap.value_ref(self.addr)
    }

    /// The current reference count of this handle's block: the number of live
    /// handles that share it.
    pub fn get_ref_count(this: &Self, heap: &Heap<T>) -> (c: usize)
        requires
            this.valid(*heap),
        ensures
            c as nat == heap.count(this.addr()),
    {
        heap.read_count(this.addr)
    }
}

impl<T> UninitRc<T> {
    /// The address of the control block this handle owns a share of.
    pub closed spec fn addr(self) -> int {
        self.addr as int
    }

    /// A live uninitialized handle: its block exists and counts at least this
    /// owner; the payload region may or may not have been written yet.
    pub open spec fn valid(self, heap: Heap<T>) -> bool {
        &&& heap.live(self.addr())
        &&& heap.count(self.addr()) >= 1
    }

    /// Write the payload in place, into the reserved region of the block.
    pub fn write(&self, heap: &mut Heap<T>, value: T)
        requires
            old(heap).wf(),
            self.valid(*old(heap)),
        ensures
            final(heap).wf(),
            write_step(*old(heap), *final(heap), self.addr(), value),
    {
        heap.put(self.addr, value);
    }

    /// The explicit transition from storage to value: this design provides no
    /// implicit path, so the caller invokes it once every part of the payload
    /// has been written. The block, its counter and its payload are untouched;
    /// only the handle's type changes.
    pub fn assume_init(self, heap: &Heap<T>) -> (h: Rc<T>)
        requires
            self.valid(*heap),
            heap.initialized(self.addr()),
        ensures
            h.addr() == self.addr(),
            h.valid(*heap),
    {
        let UninitRc { addr, _payload, _single_thread } = self;
        Rc { addr, _payload: PhantomData, _single_thread: PhantomData }
    }

    /// Release this handle's share of the still-uninitialized block, exactly
    /// as [`Rc::release`] does.
    pub fn release(self, heap: &mut Heap<T>)
        requires
            old(heap).wf(),
            self.valid(*old(heap)),
        ensures
            final(heap).wf(),
            release_step(*old(heap), *final(heap), self.addr()),
    {
        let c = heap.read_count(self.addr);
        if c == 1 {
            let _ = heap.free(self.addr);
        } else {
            heap.decrement(self.addr);
        }
    }

    /// The current reference count of this handle's block.
    pub fn get_ref_count(this: &Self, heap: &Heap<T>) -> (c: usize)
        requires
            this.valid(*heap),
        ensures
            c as nat == heap.count(this.addr()),
    {
        heap.read_count(this.addr)
    }
}

} // verus!
