//! A verified model of `malloc`-backed single ownership.
//!
//! This crate provides owning handles over allocations drawn from a C-style
//! heap allocator: a box for a single value ([`MBox`]), a box for a
//! dynamically-sized sequence ([`MSlice`]), and a box for UTF-8 text
//! ([`MStr`]).  Each handle owns exactly one allocation and releases it
//! exactly once.
//!
//! Because the raw C allocator hands out opaque, untyped addresses, its
//! bookkeeping is represented here by an explicit allocator state, [`Heap`]:
//! every address the allocator has handed out and not yet taken back is
//! recorded there, and every operation that touches the allocator threads a
//! `&mut Heap` through.  The contracts on the allocation primitives in
//! [`heap`] state exactly how each call changes that state, which makes the
//! ownership discipline — no double free, no use-after-free, exactly one
//! release per allocation — a theorem about the code rather than a comment.
//! An unverified adapter can pair each `Heap` transition with the
//! corresponding real `malloc`/`realloc`/`free` call.
//!
//! Zero-sized values and zero-length sequences never touch the allocator:
//! they are represented by a canonical sentinel address ([`heap::SENTINEL`])
//! that is non-null but never dereferenced and never passed to the real
//! allocator.

use vstd::prelude::*;

pub mod free;
pub mod heap;
pub mod mbox;
pub mod placer;
pub mod slice;
pub mod text;

pub use free::Free;
pub use heap::Heap;
pub use mbox::MBox;
pub use slice::MSlice;
pub use slice::MSliceBuilder;
pub use slice::MSliceIntoIter;
pub use text::MStr;
pub use text::Utf8Error;

verus! {

} // verus!
