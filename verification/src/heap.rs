//! The allocator capability and the memory it hands out.
//!
//! A [`Heap`] models the external allocator of this design together with the
//! control blocks it has granted: each address holds a control block (a
//! reference counter colocated with the owned payload) until the block is
//! returned. The handle types in [`crate::rc`] drive every mutation; the
//! transition relations below say, address by address, what each protocol step
//! does to the memory, and are shared between the handles' contracts and the
//! protocol lemmas in [`crate::laws`].

use vstd::prelude::*;

verus! {

/// The one recoverable failure of this design: the allocator could not
/// satisfy a layout request during construction.
#[derive(Debug, PartialEq, Eq, Structural)]
pub struct AllocError;

/// A control block: one allocation holding the reference counter and the
/// owned payload. `value` is `None` while the payload region is reserved but
/// not yet initialized (construct-uninitialized), and `Some` once a payload
/// is in place.
struct Block<T> {
    ref_count: usize,
    value: Option<T>,
}

/// The allocator capability together with the blocks it has granted.
///
/// Addresses are handed out in order and never reused; a freed address keeps
/// its slot, empty, so that "outstanding allocations" is observable and a
/// double free is ruled out by contract rather than by luck.
pub struct Heap<T> {
    blocks: Vec<Option<Block<T>>>,
    grants: bool,
}

/// How many of the slots of `s` still hold a block.
spec fn count_live<T>(s: Seq<Option<Block<T>>>) -> nat
    decreases s.len(),
{
    if s.len() == 0 {
        0
    } else {
        count_live(s.drop_last()) + (if s.last() is Some {
            1nat
        } else {
            0nat
        })
    }
}

proof fn lemma_count_live_push<T>(s: Seq<Option<Block<T>>>, x: Option<Block<T>>)
    ensures
        count_live(s.push(x)) == count_live(s) + (if x is Some {
            1nat
        } else {
            0nat
        }),
{
    assert(s.push(x).drop_last() =~= s);
}

proof fn lemma_count_live_update<T>(s: Seq<Option<Block<T>>>, i: int, x: Option<Block<T>>)
    requires
        0 <= i < s.len(),
    ensures
        count_live(s.update(i, x)) + (if s[i] is Some {
            1nat
        } else {
            0nat
        }) == count_live(s) + (if x is Some {
            1nat
        } else {
            0nat
        }),
    decreases s.len(),
{
    if i == s.len() - 1 {
        assert(s.update(i, x).drop_last() =~= s.drop_last());
        assert(s.update(i, x).last() == x);
    } else {
        assert(s.update(i, x).drop_last() =~= s.drop_last().update(i, x));
        assert(s.update(i, x).last() == s.last());
        lemma_count_live_update(s.drop_last(), i, x);
    }
}

impl<T> Heap<T> {
    /// The address the next successful allocation will return; addresses below
    /// it have been handed out at some point, addresses at or above it never.
    pub closed spec fn next_addr(self) -> int {
        self.blocks@.len() as int
    }

    /// Does address `a` currently hold a block?
    pub closed spec fn live(self, a: int) -> bool {
        0 <= a < self.blocks@.len() && self.blocks@[a] is Some
    }

    /// The reference counter of the block at `a` (zero where no block lives).
    pub closed spec fn count(self, a: int) -> nat {
        if self.live(a) {
            self.blocks@[a]->0.ref_count as nat
        } else {
            0
        }
    }

    /// The payload of the block at `a`: `None` where no block lives or the
    /// payload region is still uninitialized.
    pub closed spec fn stored(self, a: int) -> Option<T> {
        if self.live(a) {
            self.blocks@[a]->0.value
        } else {
            None
        }
    }

    /// Does the block at `a` hold a fully written payload?
    pub open spec fn initialized(self, a: int) -> bool {
        self.stored(a) is Some
    }

    /// The allocation policy: does this allocator grant requests? A heap
    /// configured to refuse them fails every construction.
    pub closed spec fn grants_allocation(self) -> bool {
        self.grants
    }

    /// How many allocations are outstanding: granted and not yet returned.
    pub closed spec fn outstanding(self) -> nat {
        count_live(self.blocks@)
    }

    /// Every live block counts at least one owner. Each handle operation
    /// preserves this; the transition to zero owners coincides with the free.
    pub open spec fn wf(self) -> bool {
        forall|a: int| #[trigger] self.live(a) ==> self.count(a) >= 1
    }

    /// A fresh allocator that grants every request and has granted none yet.
    pub fn new() -> (h: Heap<T>)
        ensures
            h.wf(),
            h.grants_allocation(),
            h.next_addr() == 0,
            h.outstanding() == 0,
            forall|a: int| !(#[trigger] h.live(a)),
    {
        Heap { blocks: Vec::new(), grants: true }
    }

    /// An allocator configured to refuse every request.
    pub fn failing() -> (h: Heap<T>)
        ensures
            h.wf(),
            !h.grants_allocation(),
            h.next_addr() == 0,
            h.outstanding() == 0,
            forall|a: int| !(#[trigger] h.live(a)),
    {
        Heap { blocks: Vec::new(), grants: false }
    }

    /// How many allocations are outstanding, as the tracking side of the
    /// allocator reports it.
    pub fn outstanding_allocations(&self) -> (n: usize)
        ensures
            n as nat == self.outstanding(),
    {
        let ghost s = self.blocks@;
        let mut n: usize = 0;
        let mut i: usize = 0;
        while i < self.blocks.len()
            invariant
                i <= s.len(),
                s == self.blocks@,
                n as nat == count_live(s.take(i as int)),
                n <= i,
            decreases s.len() - i,
        {
            proof {
                assert(s.take(i + 1).drop_last() =~= s.take(i as int));
                assert(s.take(i + 1).last() == s[i as int]);
            }
            if self.blocks[i].is_some() {
                n = n + 1;
            }
            i = i + 1;
        }
        proof {
            assert(s.take(s.len() as int) =~= s);
        }
        n
    }

    /// Grant one block: reserve memory for the counter and the payload
    /// region, write a counter of one, and put `payload` (or nothing, for a
    /// construct-uninitialized request) in place.
    pub(crate) fn allocate(&mut self, payload: Option<T>) -> (r: Result<usize, AllocError>)
        requires
            old(self).wf(),
        ensures
            final(self).wf(),
            old(self).grants_allocation() ==> (r matches Ok(a) && a as int == old(self).next_addr()
                && alloc_step(*old(self), *final(self), a as int, payload)),
            !old(self).grants_allocation() ==> r is Err && *final(self) == *old(self),
    {
        if !self.grants {
            return Err(AllocError);
        }
        let a = self.blocks.len();
        proof {
            lemma_count_live_push(
                self.blocks@,
                Some(Block { ref_count: 1, value: payload }),
            );
        }
        self.blocks.push(Some(Block { ref_count: 1, value: payload }));
        proof {
            assert forall|b: int| #[trigger] self.live(b) implies self.count(b) >= 1 by {
                if b != a as int {
                    assert(old(self).live(b));
                    assert(self.count(b) == old(self).count(b));
                }
            };
        }
        Ok(a)
    }

    /// The counter of the block at `a`.
    pub(crate) fn read_count(&self, a: usize) -> (c: usize)
        requires
            self.live(a as int),
        ensures
            c as nat == self.count(a as int),
    {
        match &self.blocks[a] {
            Some(block) => block.ref_count,
            None => vstd::pervasive::unreached(),
        }
    }

    /// A borrow of the payload of the block at `a`.
    pub(crate) fn value_ref(&self, a: usize) -> (r: &T)
        requires
            self.live(a as int),
            self.initialized(a as int),
        ensures
            self.stored(a as int) == Some(*r),
    {
        match &self.blocks[a] {
            Some(block) => match &block.value {
                Some(v) => v,
                None => vstd::pervasive::unreached(),
            },
            None => vstd::pervasive::unreached(),
        }
    }

    /// Raise the counter of the block at `a` by one.
    pub(crate) fn increment(&mut self, a: usize)
        requires
            old(self).wf(),
            old(self).live(a as int),
            old(self).count(a as int) < usize::MAX,
        ensures
            final(self).wf(),
            increment_step(*old(self), *final(self), a as int),
    {
        let ghost s = self.blocks@;
        let slot = &mut self.blocks[a];
        match slot {
            Some(block) => {
                block.ref_count = block.ref_count + 1;
            },
            None => {
                proof {
                    assert(false);
                }
            },
        }
        proof {
            lemma_count_live_update(s, a as int, self.blocks@[a as int]);
            assert forall|b: int| #[trigger] self.live(b) implies self.count(b) >= 1 by {
                if b != a as int {
                    assert(old(self).live(b));
                    assert(self.count(b) == old(self).count(b));
                }
            };
        }
    }

    /// Lower the counter of the block at `a` by one; at least one owner stays.
    pub(crate) fn decrement(&mut self, a: usize)
        requires
            old(self).wf(),
            old(self).live(a as int),
            old(self).count(a as int) >= 2,
        ensures
            final(self).wf(),
            decrement_step(*old(self), *final(self), a as int),
    {
        let ghost s = self.blocks@;
        let slot = &mut self.blocks[a];
        match slot {
            Some(block) => {
                block.ref_count = block.ref_count - 1;
            },
            None => {
                proof {
                    assert(false);
                }
            },
        }
        proof {
            lemma_count_live_update(s, a as int, self.blocks@[a as int]);
            assert forall|b: int| #[trigger] self.live(b) implies self.count(b) >= 1 by {
                if b != a as int {
                    assert(old(self).live(b));
                    assert(self.count(b) == old(self).count(b));
                }
            };
        }
    }

    /// Put `value` into the payload region of the block at `a`.
    pub(crate) fn put(&mut self, a: usize, value: T)
        requires
            old(self).wf(),
            old(self).live(a as int),
        ensures
            final(self).wf(),
            write_step(*old(self), *final(self), a as int, value),
    {
        let ghost s = self.blocks@;
        let slot = &mut self.blocks[a];
        match slot {
            Some(block) => {
                block.value = Some(value);
            },
            None => {
                proof {
                    assert(false);
                }
            },
        }
        proof {
            lemma_count_live_update(s, a as int, self.blocks@[a as int]);
            assert forall|b: int| #[trigger] self.live(b) implies self.count(b) >= 1 by {
                if b != a as int {
                    assert(old(self).live(b));
                    assert(self.count(b) == old(self).count(b));
                }
            };
        }
    }

    /// Return the block at `a` to the allocator and hand its payload out, so
    /// that the caller can tear it down or move it to a new owner.
    pub(crate) fn free(&mut self, a: usize) -> (p: Option<T>)
        requires
            old(self).wf(),
            old(self).live(a as int),
        ensures
            final(self).wf(),
            p == old(self).stored(a as int),
            dealloc_step(*old(self), *final(self), a as int),
    {
        let ghost s = self.blocks@;
        let slot = &mut self.blocks[a];
        let b = slot.take();
        proof {
            lemma_count_live_update(s, a as int, None);
            assert forall|b: int| #[trigger] self.live(b) implies self.count(b) >= 1 by {
                if b != a as int {
                    assert(old(self).live(b));
                    assert(self.count(b) == old(self).count(b));
                }
            };
        }
        match b {
            Some(block) => block.value,
            None => vstd::pervasive::unreached(),
        }
    }
}

/// Addresses other than `a` are untouched between `pre` and `post`.
pub open spec fn others_unchanged<T>(pre: Heap<T>, post: Heap<T>, a: int) -> bool {
    &&& forall|b: int| b != a ==> ((#[trigger] post.live(b)) <==> pre.live(b))
    &&& forall|b: int| b != a ==> (#[trigger] post.count(b)) == pre.count(b)
    &&& forall|b: int| b != a ==> (#[trigger] post.stored(b)) == pre.stored(b)
}

/// One construction: a fresh block at the next address, counted once, holding
/// `p` (`None` for a construct-uninitialized request), with one more
/// allocation outstanding and every other address untouched.
pub open spec fn alloc_step<T>(pre: Heap<T>, post: Heap<T>, a: int, p: Option<T>) -> bool {
    &&& a == pre.next_addr()
    &&& !pre.live(a)
    &&& post.next_addr() == pre.next_addr() + 1
    &&& post.live(a)
    &&& post.count(a) == 1
    &&& post.stored(a) == p
    &&& post.outstanding() == pre.outstanding() + 1
    &&& post.grants_allocation() == pre.grants_allocation()
    &&& others_unchanged(pre, post, a)
}

/// One deallocation: the block at `a` is gone, one fewer allocation is
/// outstanding, and every other address is untouched.
pub open spec fn dealloc_step<T>(pre: Heap<T>, post: Heap<T>, a: int) -> bool {
    &&& pre.live(a)
    &&& !post.live(a)
    &&& post.next_addr() == pre.next_addr()
    &&& post.outstanding() == pre.outstanding() - 1
    &&& post.grants_allocation() == pre.grants_allocation()
    &&& others_unchanged(pre, post, a)
}

/// One duplication: the counter at `a` rises by exactly one; the payload, the
/// outstanding allocations and every other address are untouched.
pub open spec fn increment_step<T>(pre: Heap<T>, post: Heap<T>, a: int) -> bool {
    &&& pre.live(a)
    &&& post.live(a)
    &&& post.count(a) == pre.count(a) + 1
    &&& post.stored(a) == pre.stored(a)
    &&& post.next_addr() == pre.next_addr()
    &&& post.outstanding() == pre.outstanding()
    &&& post.grants_allocation() == pre.grants_allocation()
    &&& others_unchanged(pre, post, a)
}

/// One non-final release: the counter at `a` falls by exactly one and the
/// block stays, payload untouched, for the remaining owners.
pub open spec fn decrement_step<T>(pre: Heap<T>, post: Heap<T>, a: int) -> bool {
    &&& pre.live(a)
    &&& pre.count(a) >= 2
    &&& post.live(a)
    &&& post.count(a) == pre.count(a) - 1
    &&& post.stored(a) == pre.stored(a)
    &&& post.next_addr() == pre.next_addr()
    &&& post.outstanding() == pre.outstanding()
    &&& post.grants_allocation() == pre.grants_allocation()
    &&& others_unchanged(pre, post, a)
}

/// One in-place write: the payload region at `a` now holds `v`; the counter,
/// the outstanding allocations and every other address are untouched.
pub open spec fn write_step<T>(pre: Heap<T>, post: Heap<T>, a: int, v: T) -> bool {
    &&& pre.live(a)
    &&& post.live(a)
    &&& post.count(a) == pre.count(a)
    &&& post.stored(a) == Some(v)
    &&& post.next_addr() == pre.next_addr()
    &&& post.outstanding() == pre.outstanding()
    &&& post.grants_allocation() == pre.grants_allocation()
    &&& others_unchanged(pre, post, a)
}

/// One release: the last owner frees the block, any other owner only lowers
/// the counter.
pub open spec fn release_step<T>(pre: Heap<T>, post: Heap<T>, a: int) -> bool {
    if pre.count(a) == 1 {
        dealloc_step(pre, post, a)
    } else {
        decrement_step(pre, post, a)
    }
}

} // verus!
