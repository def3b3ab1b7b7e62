//! Remnants of placement-new support.
//!
//! The placement protocol these types served was retired from the language,
//! so they no longer do anything; they are kept so that code naming them
//! still compiles.

use vstd::prelude::*;

use crate::heap::free_step;
use crate::heap::gen_free;
use crate::heap::Heap;
use crate::heap::SENTINEL;

verus! {

/// The placer for an `MBox`: a unit marker, since the placement protocol it
/// drove no longer exists.
#[derive(Clone, Copy, Debug, PartialEq, Eq)]
pub struct MallocPlacer(());

impl MallocPlacer {
    /// The only placer value.
    pub fn new() -> MallocPlacer {
        MallocPlacer(())
    }
}

/// An intermediate place of the retired placement protocol: it holds a bare,
/// still-uninitialized allocation, and its only remaining duty is to release
/// that allocation when it is discarded.
pub struct MPlace<T> {
    handle: usize,
    pointee: core::marker::PhantomData<T>,
}

impl<T> MPlace<T> {
    /// The address of the held allocation.
    pub closed spec fn spec_handle(&self) -> usize {
        self.handle
    }

    /// Takes charge of a bare allocation.
    pub fn from_raw(heap: &Heap, handle: usize) -> (p: MPlace<T>)
        requires
            handle == SENTINEL || heap.is_live(handle),
        ensures
            p.spec_handle() == handle,
    {
        MPlace { handle, pointee: core::marker::PhantomData }
    }

    /// Releases the held allocation; there is no pointee to destroy.
    pub fn discard(self, heap: &mut Heap)
        requires
            old(heap).wf(),
            self.spec_handle() == SENTINEL || old(heap).is_live(self.spec_handle()),
        ensures
            final(heap).wf(),
            self.spec_handle() == SENTINEL ==> *final(heap) == *old(heap),
            self.spec_handle() != SENTINEL ==> free_step(
                *old(heap),
                *final(heap),
                self.spec_handle(),
            ),
    {
        gen_free(heap, self.handle);
    }
}

} // verus!
