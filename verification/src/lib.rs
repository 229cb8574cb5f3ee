//! A single-threaded, allocator-parametric shared-ownership pointer.
//!
//! Several owning handles may share one heap-allocated payload; the payload is
//! torn down and its memory reclaimed exactly when the last owner disappears.
//! The allocation strategy is pluggable rather than fixed to one global heap:
//! every operation names the [`heap::Heap`] it works against, which plays the
//! role of the allocator capability together with the memory it hands out.
//!
//! Each allocation is a control block: a reference counter colocated with the
//! owned payload. A [`rc::Rc`] is an owning handle to such a block; duplicating
//! a handle raises the counter by one, releasing a handle lowers it by one, and
//! the release that observes a counter of one tears the payload down and
//! returns the block to the allocator.

pub mod heap;
pub mod laws;
pub mod rc;
pub mod widen;
