//! The protocol laws: what sequences of handle operations add up to.
//!
//! Each operation's own contract speaks of one step; the lemmas here chain
//! steps, over the transition relations of [`crate::heap`], into the
//! guarantees the design owes its callers: a constructed value is reclaimed
//! unchanged, a duplicate-release pair is a no-op, and releasing every owner
//! frees the block exactly once, whatever the order of the releases.

use vstd::prelude::*;

use crate::heap::alloc_step;
use crate::heap::dealloc_step;
use crate::heap::increment_step;
use crate::heap::release_step;
use crate::heap::Heap;

verus! {

/// Construction followed immediately by reclaim is a round trip: the block
/// holds exactly the constructed value with one owner, so reclaim is owed the
/// unique branch and returns that value; and the one allocation is returned
/// exactly once, leaving the allocator's outstanding balance where it began.
pub proof fn lemma_construct_then_reclaim<T>(h0: Heap<T>, h1: Heap<T>, h2: Heap<T>, a: int, v: T)
    requires
        alloc_step(h0, h1, a, Some(v)),
        dealloc_step(h1, h2, a),
    ensures
        h1.count(a) == 1,
        h1.stored(a) == Some(v),
        !h2.live(a),
        h2.outstanding() == h0.outstanding(),
{
}

/// Duplicating and then releasing one of the two owners puts the block back
/// exactly where it stood: counter, payload and outstanding allocations all
/// return to their old values, and the block stays alive throughout. This is
/// the counter tracking its owners, one up and one down.
pub proof fn lemma_duplicate_then_release<T>(h0: Heap<T>, h1: Heap<T>, h2: Heap<T>, a: int)
    requires
        h0.count(a) >= 1,
        increment_step(h0, h1, a),
        release_step(h1, h2, a),
    ensures
        h1.count(a) == h0.count(a) + 1,
        h2.live(a),
        h2.count(a) == h0.count(a),
        h2.stored(a) == h0.stored(a),
        h2.outstanding() == h0.outstanding(),
{
}

/// Releasing every owner of one block — `hs` is the trail of heaps left by
/// releasing, one after the other and in any order among the handles, all of
/// the `hs.len() - 1` owners the block starts with — tears the block down
/// exactly once: it stays alive through every release but the last, no
/// release but the last returns memory, and the last one frees the block,
/// leaving exactly one fewer allocation outstanding.
pub proof fn lemma_release_all<T>(hs: Seq<Heap<T>>, a: int)
    requires
        hs.len() >= 2,
        hs[0].count(a) == hs.len() - 1,
        forall|i: int| 0 <= i < hs.len() - 1 ==> release_step(#[trigger] hs[i], hs[i + 1], a),
    ensures
        forall|i: int| 0 <= i < hs.len() - 1 ==> (#[trigger] hs[i]).live(a),
        forall|i: int|
            0 <= i < hs.len() - 1 ==> (#[trigger] hs[i]).count(a) == hs.len() - 1 - i,
        forall|i: int|
            0 < i < hs.len() - 1 ==> (#[trigger] hs[i]).outstanding() == hs[0].outstanding(),
        !hs.last().live(a),
        hs.last().outstanding() == hs[0].outstanding() - 1,
    decreases hs.len(),
{
    assert(release_step(hs[0], hs[1], a));
    if hs.len() == 2 {
        assert(dealloc_step(hs[0], hs[1], a));
    } else {
        let tail = hs.drop_first();
        assert forall|i: int| 0 <= i < tail.len() - 1 implies release_step(
            #[trigger] tail[i],
            tail[i + 1],
            a,
        ) by {
            assert(release_step(hs[i + 1], hs[i + 2], a));
        };
        lemma_release_all(tail, a);
        assert forall|i: int| 0 <= i < hs.len() - 1 implies (#[trigger] hs[i]).live(a)
            && hs[i].count(a) == hs.len() - 1 - i by {
            if i > 0 {
                assert(tail[i - 1].live(a));
                assert(tail[i - 1].count(a) == tail.len() - 1 - (i - 1));
            }
        };
        assert forall|i: int| 0 < i < hs.len() - 1 implies (#[trigger] hs[i]).outstanding()
            == hs[0].outstanding() by {
            if i > 1 {
                assert(tail[i - 1].outstanding() == tail[0].outstanding());
            }
        };
        assert(hs.last() == tail.last());
    }
}

} // verus!
