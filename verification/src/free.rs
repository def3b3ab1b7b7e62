//! The free capability: destroy a pointee and release its backing allocation.

use vstd::prelude::*;

use crate::heap::free_step;
use crate::heap::Heap;
use crate::heap::SENTINEL;

verus! {

/// The per-shape capability to destroy an owned pointee and release the
/// allocation behind it, exactly once.
///
/// Consuming `self` destroys the pointee (everything the handle owns is
/// dropped with it), and the backing allocation — the address named by
/// `spec_handle` — is given back to the allocator unless it is the sentinel.
/// Because `free` takes its receiver by value, releasing the same box twice
/// is ruled out by move semantics rather than by a runtime flag.
pub trait Free: Sized {
    /// The address of the backing allocation.
    spec fn spec_handle(&self) -> usize;

    /// The handle is a plausible allocation for this shape: non-null, and
    /// the sentinel exactly where the shape stores no bytes.
    spec fn wf(&self) -> bool;

    /// The backing allocation is owned within `heap`: a real handle is live.
    open spec fn owned_in(&self, heap: Heap) -> bool {
        self.spec_handle() != SENTINEL ==> heap.is_live(self.spec_handle())
    }

    /// Destroys the pointee and releases the backing allocation.
    fn free(self, heap: &mut Heap)
        requires
            old(heap).wf(),
            self.wf(),
            self.owned_in(*old(heap)),
        ensures
            final(heap).wf(),
            self.spec_handle() == SENTINEL ==> *final(heap) == *old(heap),
            self.spec_handle() != SENTINEL ==> free_step(
                *old(heap),
                *final(heap),
                self.spec_handle(),
            ),
    ;
}

} // verus!
