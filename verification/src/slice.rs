//! The owning box for a dynamically-sized sequence, and the growable builder
//! that constructs one element by element.

use vstd::prelude::*;

use crate::free::Free;
use crate::heap::alloc_step;
use crate::heap::gen_free;
use crate::heap::gen_malloc;
use crate::heap::gen_realloc;
use crate::heap::realloc_step;
use crate::heap::Heap;
use crate::heap::SENTINEL;
use vstd::layout::size_of;
use vstd::pervasive::cloned;
use vstd::pervasive::VecAdditionalExecFns;

verus! {

/// One push, at the level of the builder's model: the contents grow by the
/// pushed element, and the capacity doubles exactly when the builder was
/// full.
pub open spec fn pushed<T>(contents: Seq<T>, cap: nat, value: T) -> (Seq<T>, nat) {
    (contents.push(value), if contents.len() < cap { cap } else { 2 * cap })
}

/// The builder's model after pushing all of `values`, in order.
pub open spec fn pushed_all<T>(contents: Seq<T>, cap: nat, values: Seq<T>) -> (Seq<T>, nat)
    decreases values.len(),
{
    if values.len() == 0 {
        (contents, cap)
    } else {
        let next = pushed(contents, cap, values[0]);
        pushed_all(next.0, next.1, values.drop_first())
    }
}

/// Law (growth correctness): however small the starting capacity, pushing a
/// sequence of elements into a builder yields exactly those elements,
/// appended in push order; growth never reorders or loses an element.
pub proof fn lemma_growth_correctness<T>(contents: Seq<T>, cap: nat, values: Seq<T>)
    ensures
        pushed_all(contents, cap, values).0 == contents + values,
    decreases values.len(),
{
    if values.len() == 0 {
        assert(contents + values =~= contents);
    } else {
        let next = pushed(contents, cap, values[0]);
        lemma_growth_correctness(next.0, next.1, values.drop_first());
        assert(contents.push(values[0]) + values.drop_first() =~= contents + values);
    }
}

/// Law (abort safety): if exactly `k` of `n` intended pushes complete before
/// the builder is abandoned, the builder holds exactly the first `k`
/// elements — so abandoning it destroys those `k` and nothing else; the
/// `n - k` elements never pushed have no trace in it.  That the backing
/// allocation is then released exactly once is the contract of
/// [`Free::free`] on the abandoned builder.
pub proof fn lemma_builder_abort_safety<T>(cap: nat, values: Seq<T>, k: int)
    requires
        0 <= k <= values.len(),
    ensures
        pushed_all(Seq::<T>::empty(), cap, values.subrange(0, k)).0 == values.subrange(0, k),
        pushed_all(Seq::<T>::empty(), cap, values.subrange(0, k)).0.len() == k,
{
    lemma_growth_correctness(Seq::<T>::empty(), cap, values.subrange(0, k));
    assert(Seq::<T>::empty() + values.subrange(0, k) =~= values.subrange(0, k));
}

/// A transient staging area for building a malloc-backed sequence element by
/// element.
///
/// The builder owns one allocation with room for `capacity()` elements, of
/// which exactly the prefix it has been given — its view — is initialized.
/// The slots past the initialized prefix hold no values at all, so however
/// the builder ends, only elements that were actually pushed are ever
/// destroyed.
pub struct MSliceBuilder<T> {
    handle: usize,
    filled: Vec<T>,
    spare: usize,
}

impl<T> View for MSliceBuilder<T> {
    type V = Seq<T>;

    closed spec fn view(&self) -> Seq<T> {
        self.filled@
    }
}

impl<T> Free for MSliceBuilder<T> {
    closed spec fn spec_handle(&self) -> usize {
        self.handle
    }

    open spec fn wf(&self) -> bool {
        &&& self.spec_handle() != 0
        &&& self.spec_handle() == SENTINEL <==> (size_of::<T>() == 0 || self.capacity() == 0)
    }

    /// Abandons the builder: destroys exactly the initialized prefix and
    /// releases the backing storage once.
    fn free(self, heap: &mut Heap) {
        gen_free(heap, self.handle);
    }
}

impl<T> MSliceBuilder<T> {
    /// Allocated element slots: the initialized prefix plus the spare room.
    pub closed spec fn capacity(&self) -> nat {
        (self.filled@.len() + self.spare) as nat
    }

    /// Number of elements pushed so far.
    pub fn len(&self) -> (n: usize)
        ensures
            n == self@.len(),
    {
        self.filled.len()
    }

    /// Number of allocated element slots.
    pub fn slots(&self) -> (n: usize)
        requires
            self.capacity() <= usize::MAX,
        ensures
            n == self.capacity(),
    {
        self.filled.len() + self.spare
    }

    /// Allocates room for `cap` elements, none of them initialized yet.
    pub fn with_capacity(heap: &mut Heap, cap: usize) -> (b: MSliceBuilder<T>)
        requires
            old(heap).wf(),
            cap * size_of::<T>() <= usize::MAX,
            cap != 0 && size_of::<T>() != 0 ==> old(heap).can_allocate(),
        ensures
            final(heap).wf(),
            b.wf(),
            b.owned_in(*final(heap)),
            b@ == Seq::<T>::empty(),
            b.capacity() == cap,
            cap == 0 || size_of::<T>() == 0 ==> b.spec_handle() == SENTINEL && *final(heap)
                == *old(heap),
            cap != 0 && size_of::<T>() != 0 ==> alloc_step(*old(heap), *final(heap), b.spec_handle()),
    {
        let elem_size = core::mem::size_of::<T>();
        proof {
            assert(elem_size * cap <= usize::MAX) by (nonlinear_arith)
                requires
                    cap * size_of::<T>() <= usize::MAX,
                    elem_size as nat == size_of::<T>();
        }
        let handle = gen_malloc(heap, elem_size, cap);
        MSliceBuilder { handle, filled: Vec::new(), spare: cap }
    }

    /// Appends `value` to the initialized prefix, doubling the capacity via
    /// reallocation when the builder is full.
    ///
    /// Doubling is the sole growth policy.  Growing a full builder needs a
    /// starting capacity of at least one, room in the address space for the
    /// doubled request, and an allocator that can still serve — the fatal
    /// conditions are excluded by precondition, as the allocator's own
    /// failure would be.
    pub fn push(&mut self, heap: &mut Heap, value: T)
        requires
            old(heap).wf(),
            old(self).wf(),
            old(self).owned_in(*old(heap)),
            old(self).capacity() >= 1,
            old(self)@.len() == old(self).capacity() ==> {
                &&& 2 * old(self).capacity() <= usize::MAX
                &&& 2 * old(self).capacity() * size_of::<T>() <= usize::MAX
                &&& old(heap).can_allocate()
            },
        ensures
            final(heap).wf(),
            final(self).wf(),
            final(self).owned_in(*final(heap)),
            (final(self)@, final(self).capacity()) == pushed(
                old(self)@,
                old(self).capacity(),
                value,
            ),
            old(self)@.len() < old(self).capacity() ==> *final(heap) == *old(heap)
                && final(self).spec_handle() == old(self).spec_handle(),
            old(self)@.len() == old(self).capacity() && size_of::<T>() == 0 ==> *final(heap)
                == *old(heap) && final(self).spec_handle() == old(self).spec_handle(),
            old(self)@.len() == old(self).capacity() && size_of::<T>() != 0 ==> realloc_step(
                *old(heap),
                *final(heap),
                old(self).spec_handle(),
                final(self).spec_handle(),
            ),
    {
        if self.spare == 0 {
            let len = self.filled.len();
            let elem_size = core::mem::size_of::<T>();
            let new_cap = len + len;
            proof {
                assert(elem_size * new_cap <= usize::MAX) by (nonlinear_arith)
                    requires
                        new_cap * size_of::<T>() <= usize::MAX,
                        elem_size as nat == size_of::<T>();
            }
            let new_handle = gen_realloc(heap, self.handle, elem_size, new_cap);
            self.handle = new_handle;
            self.spare = len;
        }
        self.filled.push(value);
        self.spare = self.spare - 1;
    }

    /// Converts the builder into a sequence box covering exactly the
    /// initialized prefix.
    ///
    /// No allocator call is made: spare capacity stays allocated but unused
    /// until the resulting box's own release frees the whole block.
    pub fn into_mboxed_slice(self) -> (s: MSlice<T>)
        requires
            self.wf(),
        ensures
            s.wf(),
            s@ == self@,
            s.spec_handle() == self.spec_handle(),
    {
        let MSliceBuilder { handle, filled, spare: _ } = self;
        MSlice { handle, items: filled }
    }
}

/// A malloc-backed sequence: the exclusive owner of one allocation holding a
/// fixed number of elements.
///
/// The box pairs the allocation's address with the elements stored there;
/// its view is the element sequence.  Zero-sized elements occupy no bytes,
/// so their boxes carry the sentinel address and never touch the allocator —
/// as does an empty sequence built without spare capacity.
pub struct MSlice<T> {
    handle: usize,
    items: Vec<T>,
}

impl<T> View for MSlice<T> {
    type V = Seq<T>;

    closed spec fn view(&self) -> Seq<T> {
        self.items@
    }
}

impl<T> Free for MSlice<T> {
    closed spec fn spec_handle(&self) -> usize {
        self.handle
    }

    open spec fn wf(&self) -> bool {
        &&& self.spec_handle() != 0
        &&& size_of::<T>() == 0 ==> self.spec_handle() == SENTINEL
        &&& self.spec_handle() == SENTINEL ==> size_of::<T>() == 0 || self@.len() == 0
    }

    /// Destroys every element, then releases the backing storage once.
    fn free(self, heap: &mut Heap) {
        gen_free(heap, self.handle);
    }
}

impl<T> MSlice<T> {
    /// Wraps an address and the elements stored at it as a sequence box.
    ///
    /// This is the boundary-trust constructor for sequences: the caller
    /// asserts that `handle` came from the allocation primitives with room
    /// for the elements, and ownership of the allocation transfers into the
    /// box.
    pub fn from_raw_parts(heap: &Heap, handle: usize, items: Vec<T>) -> (s: MSlice<T>)
        requires
            handle != 0,
            size_of::<T>() == 0 ==> handle == SENTINEL,
            handle == SENTINEL ==> size_of::<T>() == 0 || items@.len() == 0,
            handle != SENTINEL ==> heap.is_live(handle),
        ensures
            s.wf(),
            s.owned_in(*heap),
            s.spec_handle() == handle,
            s@ == items@,
    {
        MSlice { handle, items }
    }

    /// Reassembles a sequence box from parts that already carry ownership of
    /// the allocation — the crate-internal counterpart of
    /// [`MSlice::from_raw_parts`] for moving ownership between the crate's
    /// own shapes, where no boundary trust is involved.
    pub(crate) fn from_owned_parts(handle: usize, items: Vec<T>) -> (s: MSlice<T>)
        requires
            handle != 0,
            size_of::<T>() == 0 ==> handle == SENTINEL,
            handle == SENTINEL ==> size_of::<T>() == 0 || items@.len() == 0,
        ensures
            s.wf(),
            s.spec_handle() == handle,
            s@ == items@,
    {
        MSlice { handle, items }
    }

    /// Disarms the box and returns the bare address together with the
    /// elements stored at it.  Responsibility for the allocation transfers
    /// to the caller.
    pub fn into_raw_parts(self) -> (r: (usize, Vec<T>))
        ensures
            r.0 == self.spec_handle(),
            r.1@ == self@,
    {
        let MSlice { handle, items } = self;
        (handle, items)
    }

    /// Number of elements.
    pub fn len(&self) -> (n: usize)
        ensures
            n == self@.len(),
    {
        self.items.len()
    }

    /// The address owned by the box: non-null even for an empty sequence.
    pub fn as_ptr(&self) -> (p: usize)
        requires
            self.wf(),
        ensures
            p == self.spec_handle(),
            p != 0,
    {
        self.handle
    }

    /// Read access to the element at `i`.
    pub fn get(&self, i: usize) -> (r: &T)
        requires
            i < self@.len(),
        ensures
            *r == self@[i as int],
    {
        &self.items[i]
    }

    /// Write access to the element at `i`.
    pub fn get_mut(&mut self, i: usize) -> (r: &mut T)
        requires
            i < old(self)@.len(),
        ensures
            *r == old(self)@[i as int],
            final(self)@ == old(self)@.update(i as int, *final(r)),
            final(self).spec_handle() == old(self).spec_handle(),
            final(self).wf() <==> old(self).wf(),
    {
        &mut self.items[i]
    }

    /// Overwrites the element at `i`, dropping the previous one.
    pub fn set(&mut self, i: usize, value: T)
        requires
            i < old(self)@.len(),
        ensures
            final(self)@ == old(self)@.update(i as int, value),
            final(self).spec_handle() == old(self).spec_handle(),
            final(self).wf() <==> old(self).wf(),
    {
        self.items.set(i, value);
    }

    /// The elements, as a borrowed slice.
    pub fn as_slice(&self) -> (r: &[T])
        ensures
            r@ == self@,
    {
        self.items.as_slice()
    }

    /// Builds a sequence box by moving the elements of `items` into a fresh
    /// allocation, in order.
    ///
    /// The builder's capacity is seeded with the element count (at least
    /// one), so the allocator is asked exactly once for a non-zero-sized
    /// element type.
    pub fn from_vec(heap: &mut Heap, items: Vec<T>) -> (s: MSlice<T>)
        requires
            old(heap).wf(),
            items@.len() * size_of::<T>() <= usize::MAX,
            size_of::<T>() != 0 ==> old(heap).can_allocate(),
        ensures
            final(heap).wf(),
            s.wf(),
            s.owned_in(*final(heap)),
            s@ == items@,
            size_of::<T>() == 0 ==> *final(heap) == *old(heap),
            size_of::<T>() != 0 ==> alloc_step(*old(heap), *final(heap), s.spec_handle()),
    {
        let n = items.len();
        let elem_size = core::mem::size_of::<T>();
        let cap = if n == 0 {
            1
        } else {
            n
        };
        proof {
            assert(cap * size_of::<T>() <= usize::MAX) by (nonlinear_arith)
                requires
                    n * size_of::<T>() <= usize::MAX,
                    elem_size as nat == size_of::<T>(),
                    cap == if n == 0 { 1usize } else { n };
        }
        let mut builder = MSliceBuilder::<T>::with_capacity(heap, cap);
        let ghost heap1 = *heap;
        let ghost handle1 = builder.spec_handle();
        let ghost items0 = items@;
        let mut rest = items;
        while rest.len() > 0
            invariant
                *heap == heap1,
                heap1.wf(),
                builder.wf(),
                builder.owned_in(heap1),
                builder.spec_handle() == handle1,
                builder.capacity() == cap,
                builder@ + rest@ == items0,
                builder@.len() + rest@.len() == items0.len(),
                items0.len() <= cap,
                cap >= 1,
            decreases rest@.len(),
        {
            let ghost before = builder@;
            let ghost before_rest = rest@;
            let x = rest.remove(0);
            builder.push(heap, x);
            proof {
                assert(before.push(x) + rest@ =~= before + before_rest);
            }
        }
        proof {
            assert(builder@ =~= items0);
        }
        builder.into_mboxed_slice()
    }

    /// Converts the box into a consuming iterator over its elements.
    ///
    /// The iterator takes over the allocation; elements not yet yielded stay
    /// owned by it.
    pub fn into_iter(self) -> (it: MSliceIntoIter<T>)
        requires
            self.wf(),
        ensures
            it.wf(),
            it@ == self@,
            it.spec_handle() == self.spec_handle(),
    {
        let MSlice { handle, items } = self;
        MSliceIntoIter { handle, items }
    }
}

impl<T: Clone> MSlice<T> {
    /// Builds a sequence box by duplicating every element of `items`, in
    /// order.
    ///
    /// The builder's capacity is seeded with the source length, so the
    /// allocator is asked exactly once for a non-empty sequence of a
    /// non-zero-sized element type.  Elements are duplicated one at a time;
    /// if a duplication aborts partway, the duplicates already made are
    /// destroyed by the abandoned builder and the rest of the source is left
    /// untouched.
    pub fn from_slice(heap: &mut Heap, items: &[T]) -> (s: MSlice<T>)
        requires
            old(heap).wf(),
            items@.len() * size_of::<T>() <= usize::MAX,
            items@.len() != 0 && size_of::<T>() != 0 ==> old(heap).can_allocate(),
        ensures
            final(heap).wf(),
            s.wf(),
            s.owned_in(*final(heap)),
            s@.len() == items@.len(),
            forall|i: int| 0 <= i < items@.len() ==> cloned(items@[i], #[trigger] s@[i]),
            items@.len() == 0 || size_of::<T>() == 0 ==> *final(heap) == *old(heap),
            items@.len() != 0 && size_of::<T>() != 0 ==> alloc_step(
                *old(heap),
                *final(heap),
                s.spec_handle(),
            ),
    {
        let n = items.len();
        let mut builder = MSliceBuilder::<T>::with_capacity(heap, n);
        let ghost heap1 = *heap;
        let ghost handle1 = builder.spec_handle();
        let mut i: usize = 0;
        while i < n
            invariant
                *heap == heap1,
                heap1.wf(),
                builder.wf(),
                builder.owned_in(heap1),
                builder.spec_handle() == handle1,
                builder.capacity() == n,
                n == items@.len(),
                i <= n,
                builder@.len() == i,
                forall|j: int| 0 <= j < i ==> cloned(items@[j], #[trigger] builder@[j]),
            decreases n - i,
        {
            let x = items[i].clone();
            builder.push(heap, x);
            i = i + 1;
        }
        builder.into_mboxed_slice()
    }

    /// Duplicates the sequence into a fresh box of its own; the original is
    /// untouched.
    pub fn clone_in(&self, heap: &mut Heap) -> (s: MSlice<T>)
        requires
            old(heap).wf(),
            self.wf(),
            self.owned_in(*old(heap)),
            self@.len() * size_of::<T>() <= usize::MAX,
            self@.len() != 0 && size_of::<T>() != 0 ==> old(heap).can_allocate(),
        ensures
            final(heap).wf(),
            s.wf(),
            s.owned_in(*final(heap)),
            self.owned_in(*final(heap)),
            s@.len() == self@.len(),
            forall|i: int| 0 <= i < self@.len() ==> cloned(self@[i], #[trigger] s@[i]),
            self@.len() != 0 && size_of::<T>() != 0 ==> s.spec_handle() != self.spec_handle(),
    {
        let s = MSlice::from_slice(heap, self.items.as_slice());
        proof {
            if self@.len() != 0 && size_of::<T>() != 0 {
                old(heap).lemma_live_is_real(self.spec_handle());
            }
        }
        s
    }
}

impl<T> Default for MSlice<T> {
    /// The empty sequence: it carries the sentinel and never touches the
    /// allocator.
    fn default() -> (s: MSlice<T>)
        ensures
            s.wf(),
            s@ == Seq::<T>::empty(),
            s.spec_handle() == SENTINEL,
    {
        MSlice { handle: SENTINEL, items: Vec::new() }
    }
}

/// The consuming iterator over a malloc-backed sequence.
///
/// It owns the allocation and the elements not yet yielded; its view is the
/// remaining elements.  Yielding moves an element out from either end.
/// Dropping the iterator partway destroys only the remainder, and its
/// release gives the backing storage back exactly once.
pub struct MSliceIntoIter<T> {
    handle: usize,
    items: Vec<T>,
}

impl<T> View for MSliceIntoIter<T> {
    type V = Seq<T>;

    closed spec fn view(&self) -> Seq<T> {
        self.items@
    }
}

impl<T> Free for MSliceIntoIter<T> {
    closed spec fn spec_handle(&self) -> usize {
        self.handle
    }

    open spec fn wf(&self) -> bool {
        &&& self.spec_handle() != 0
        &&& size_of::<T>() == 0 ==> self.spec_handle() == SENTINEL
    }

    /// Destroys the elements not yet yielded, then releases the backing
    /// storage once.
    fn free(self, heap: &mut Heap) {
        gen_free(heap, self.handle);
    }
}

impl<T> MSliceIntoIter<T> {
    /// Yields the next element from the front, or signals exhaustion.
    pub fn next(&mut self) -> (r: Option<T>)
        ensures
            final(self).spec_handle() == old(self).spec_handle(),
            final(self).wf() <==> old(self).wf(),
            old(self)@.len() == 0 ==> r is None && final(self)@ == old(self)@,
            old(self)@.len() > 0 ==> r == Some(old(self)@[0]) && final(self)@
                == old(self)@.drop_first(),
    {
        if self.items.len() == 0 {
            None
        } else {
            let x = self.items.remove(0);
            proof {
                assert(old(self)@.remove(0) =~= old(self)@.drop_first());
            }
            Some(x)
        }
    }

    /// Yields the next element from the back, or signals exhaustion.
    pub fn next_back(&mut self) -> (r: Option<T>)
        ensures
            final(self).spec_handle() == old(self).spec_handle(),
            final(self).wf() <==> old(self).wf(),
            old(self)@.len() == 0 ==> r is None && final(self)@ == old(self)@,
            old(self)@.len() > 0 ==> r == Some(old(self)@.last()) && final(self)@
                == old(self)@.drop_last(),
    {
        self.items.pop()
    }

    /// Exact bounds on the number of elements still to be yielded.
    pub fn size_hint(&self) -> (r: (usize, Option<usize>))
        ensures
            r.0 == self@.len(),
            r.1 == Some(r.0),
    {
        let n = self.items.len();
        (n, Some(n))
    }

    /// Number of elements still to be yielded.
    pub fn remaining(&self) -> (n: usize)
        ensures
            n == self@.len(),
    {
        self.items.len()
    }
}

} // verus!
