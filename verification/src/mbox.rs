//! The owning box for a single value.

use vstd::prelude::*;

use crate::free::Free;
use crate::heap::alloc_step;
use crate::heap::gen_free;
use crate::heap::gen_malloc;
use crate::heap::Heap;
use crate::heap::SENTINEL;
use vstd::layout::size_of;
use vstd::pervasive::cloned;

verus! {

/// A malloc-backed box: the exclusive owner of one allocation holding one
/// value of type `T`.
///
/// The box pairs the allocation's address with the value stored there.  Its
/// view is the pointee itself.  A zero-sized pointee occupies no bytes, so
/// its box carries the sentinel address and never touches the allocator.
pub struct MBox<T> {
    handle: usize,
    value: T,
}

impl<T> View for MBox<T> {
    type V = T;

    closed spec fn view(&self) -> T {
        self.value
    }
}

impl<T> Free for MBox<T> {
    closed spec fn spec_handle(&self) -> usize {
        self.handle
    }

    open spec fn wf(&self) -> bool {
        &&& self.spec_handle() != 0
        &&& self.spec_handle() == SENTINEL <==> size_of::<T>() == 0
    }

    fn free(self, heap: &mut Heap) {
        gen_free(heap, self.handle);
    }
}

impl<T> MBox<T> {
    /// Allocates storage for one value and moves `value` into it.
    ///
    /// Never fails for a value: allocator exhaustion would be fatal and is
    /// excluded by precondition.  A zero-sized value leaves the allocator
    /// untouched.
    pub fn new(heap: &mut Heap, value: T) -> (b: MBox<T>)
        requires
            old(heap).wf(),
            size_of::<T>() != 0 ==> old(heap).can_allocate(),
        ensures
            final(heap).wf(),
            b.wf(),
            b.owned_in(*final(heap)),
            b@ == value,
            size_of::<T>() == 0 ==> b.spec_handle() == SENTINEL && *final(heap) == *old(heap),
            size_of::<T>() != 0 ==> alloc_step(*old(heap), *final(heap), b.spec_handle()),
    {
        let elem_size = core::mem::size_of::<T>();
        assert(elem_size * 1 == elem_size);
        let handle = gen_malloc(heap, elem_size, 1);
        MBox { handle, value }
    }

    /// Wraps an address that the caller asserts came from the allocation
    /// primitives and already holds the (moved-in) value.
    ///
    /// This is the boundary-trust constructor: ownership of the allocation
    /// transfers into the box, so the caller must not release `handle`
    /// afterwards.  The preconditions state exactly the honesty the caller
    /// owes.
    pub fn from_raw(heap: &Heap, handle: usize, value: T) -> (b: MBox<T>)
        requires
            handle != 0,
            handle == SENTINEL <==> size_of::<T>() == 0,
            handle != SENTINEL ==> heap.is_live(handle),
        ensures
            b.wf(),
            b.owned_in(*heap),
            b.spec_handle() == handle,
            b@ == value,
    {
        MBox { handle, value }
    }

    /// The address owned by the box: non-null, and dereferenceable unless the
    /// pointee is zero-sized.
    pub fn as_ptr(&self) -> (p: usize)
        requires
            self.wf(),
        ensures
            p == self.spec_handle(),
            p != 0,
    {
        self.handle
    }

    /// The address owned by the box, for writing through.
    pub fn as_mut_ptr(&mut self) -> (p: usize)
        requires
            old(self).wf(),
        ensures
            *final(self) == *old(self),
            p == final(self).spec_handle(),
            p != 0,
    {
        self.handle
    }

    /// Disarms the box and returns the bare address together with the value
    /// stored at it.
    ///
    /// The box no longer releases anything: responsibility for the
    /// allocation transfers to the caller, who must eventually release it
    /// (for example by rebuilding a box with [`MBox::from_raw`] and freeing
    /// that) or intentionally leak it.
    pub fn into_raw(self) -> (r: (usize, T))
        ensures
            r.0 == self.spec_handle(),
            r.1 == self@,
    {
        let MBox { handle, value } = self;
        (handle, value)
    }

    /// Read access to the pointee.
    pub fn get(&self) -> (r: &T)
        ensures
            *r == self@,
    {
        &self.value
    }

    /// Write access to the pointee.
    pub fn get_mut(&mut self) -> (r: &mut T)
        ensures
            *r == old(self)@,
            final(self)@ == *final(r),
            final(self).spec_handle() == old(self).spec_handle(),
            final(self).wf() <==> old(self).wf(),
    {
        &mut self.value
    }

    /// Overwrites the pointee, dropping the previous value.
    pub fn set(&mut self, value: T)
        ensures
            final(self)@ == value,
            final(self).spec_handle() == old(self).spec_handle(),
            final(self).wf() <==> old(self).wf(),
    {
        self.value = value;
    }

    /// Replaces the pointee, handing the previous value back.
    pub fn replace(&mut self, value: T) -> (r: T)
        ensures
            r == old(self)@,
            final(self)@ == value,
            final(self).spec_handle() == old(self).spec_handle(),
            final(self).wf() <==> old(self).wf(),
    {
        let mut taken = value;
        core::mem::swap(&mut self.value, &mut taken);
        taken
    }
}

impl<T: Clone> MBox<T> {
    /// Duplicates the pointee into a fresh box of its own.
    ///
    /// The duplicate lives in a distinct allocation, and the original is
    /// untouched; afterwards both allocations are live independently.  The
    /// value is duplicated before any storage is allocated, so a duplication
    /// that aborts leaks nothing.
    pub fn clone_in(&self, heap: &mut Heap) -> (b: MBox<T>)
        requires
            old(heap).wf(),
            self.wf(),
            self.owned_in(*old(heap)),
            size_of::<T>() != 0 ==> old(heap).can_allocate(),
        ensures
            final(heap).wf(),
            b.wf(),
            b.owned_in(*final(heap)),
            cloned(self@, b@),
            self.owned_in(*final(heap)),
            size_of::<T>() == 0 ==> *final(heap) == *old(heap),
            size_of::<T>() != 0 ==> alloc_step(*old(heap), *final(heap), b.spec_handle()),
            size_of::<T>() != 0 ==> b.spec_handle() != self.spec_handle(),
    {
        let dup = self.value.clone();
        MBox::new(heap, dup)
    }

    /// Duplicates `source`'s pointee into this box, dropping the value the
    /// box held before.
    ///
    /// The previous value is destroyed only after the duplicate has been
    /// produced, so a duplication that aborts leaves this box still holding
    /// its original, intact value.  No allocator call is made: the box keeps
    /// its allocation.
    pub fn clone_from_in(&mut self, source: &MBox<T>)
        ensures
            cloned(source@, final(self)@),
            final(self).spec_handle() == old(self).spec_handle(),
            final(self).wf() <==> old(self).wf(),
    {
        let dup = source.value.clone();
        self.value = dup;
    }
}

} // verus!
