//! The allocation primitives and the allocator state they act on.
//!
//! [`Heap`] models what the process-wide C allocator knows: which addresses
//! are currently allocated, and how many allocations, releases and
//! reallocations have been performed.  The three primitives [`gen_malloc`],
//! [`gen_free`] and [`gen_realloc`] are the only operations that change a
//! `Heap`; everything else in the crate is built on top of them.
//!
//! Addresses are plain `usize` values.  Address `0` (null) is never handed
//! out: allocator exhaustion is a fatal condition excluded by precondition,
//! mirroring an allocator whose failure aborts the process.  Address
//! [`SENTINEL`] is the canonical non-null, non-dereferenceable stand-in for
//! zero-sized or zero-length allocations; it is never passed to the real
//! allocator, so the primitives leave the heap untouched when they see it.

use vstd::prelude::*;

verus! {

/// The canonical address for zero-sized allocations: non-null, never
/// dereferenced, never given to the real allocator.
pub const SENTINEL: usize = 1;

/// The lowest address a real allocation can have.  Real addresses are
/// distinct from null (`0`) and from [`SENTINEL`].
pub const FIRST_REAL: usize = 2;

/// What the C allocator knows about the process: the set of addresses it has
/// handed out and not yet taken back, and counters for each kind of call it
/// has served.
pub struct Heap {
    /// Source of fresh addresses; strictly above every address handed out so far.
    next: usize,
    /// Addresses currently allocated, each exactly once.
    live: Vec<usize>,
    /// How many allocations have been served (by `gen_malloc`, or by
    /// `gen_realloc` growing the sentinel into a real allocation).
    allocs: usize,
    /// How many releases have been served (by `gen_free`, or by
    /// `gen_realloc` shrinking a real allocation to nothing).
    frees: usize,
    /// How many in-place reallocations of a real allocation have been served.
    reallocs: usize,
}

impl Heap {
    /// True when address `h` is currently allocated.
    pub closed spec fn is_live(self, h: usize) -> bool {
        self.live@.contains(h)
    }

    /// Number of addresses currently allocated.
    pub closed spec fn live_count(self) -> nat {
        self.live@.len()
    }

    /// Number of allocations served so far.
    pub closed spec fn alloc_count(self) -> nat {
        self.allocs as nat
    }

    /// Number of releases served so far.
    pub closed spec fn free_count(self) -> nat {
        self.frees as nat
    }

    /// Number of reallocations served so far.
    pub closed spec fn realloc_count(self) -> nat {
        self.reallocs as nat
    }

    /// Every address handed out so far lies below this bound.
    pub closed spec fn handle_bound(self) -> nat {
        self.next as nat
    }

    /// True while the allocator can still produce a fresh address.  Running
    /// out is the fatal out-of-memory condition, which callers exclude by
    /// precondition rather than handle as a value.
    pub open spec fn can_allocate(self) -> bool {
        self.handle_bound() < usize::MAX as nat
    }

    /// The allocator state is consistent: live addresses are real, pairwise
    /// distinct and below the freshness bound, and the counters account for
    /// the addresses consumed.
    pub closed spec fn wf(self) -> bool {
        &&& FIRST_REAL <= self.next
        &&& (forall|i: int|
            0 <= i < self.live@.len() ==> FIRST_REAL <= #[trigger] self.live@[i] < self.next)
        &&& (forall|i: int, j: int|
            0 <= i < j < self.live@.len() ==> #[trigger] self.live@[i] != #[trigger] self.live@[j])
        &&& self.allocs + self.reallocs + FIRST_REAL <= self.next
        &&& self.frees + self.live@.len() <= self.allocs + self.reallocs
    }

    /// A live address is real: neither null nor the sentinel, and below the
    /// freshness bound.
    pub proof fn lemma_live_is_real(self, h: usize)
        requires
            self.wf(),
            self.is_live(h),
        ensures
            FIRST_REAL <= h < self.handle_bound(),
            h != 0,
            h != SENTINEL,
    {
        let i = choose|i: int| 0 <= i < self.live@.len() && self.live@[i] == h;
        assert(FIRST_REAL <= self.live@[i] < self.next);
    }

    /// A fresh allocator that has served no calls yet.
    pub fn new() -> (heap: Heap)
        ensures
            heap.wf(),
            heap.can_allocate(),
            heap.handle_bound() == FIRST_REAL,
            forall|h: usize| !heap.is_live(h),
            heap.live_count() == 0,
            heap.alloc_count() == 0,
            heap.free_count() == 0,
            heap.realloc_count() == 0,
    {
        Heap { next: FIRST_REAL, live: Vec::new(), allocs: 0, frees: 0, reallocs: 0 }
    }

    /// Number of addresses currently allocated.
    pub fn live_handles(&self) -> (n: usize)
        ensures
            n == self.live_count(),
    {
        self.live.len()
    }

    /// Whether address `h` is currently allocated.
    pub fn is_allocated(&self, h: usize) -> (b: bool)
        ensures
            b == self.is_live(h),
    {
        let n = self.live.len();
        let mut i: usize = 0;
        while i < n
            invariant
                n == self.live@.len(),
                i <= n,
                forall|j: int| 0 <= j < i ==> self.live@[j] != h,
            decreases n - i,
        {
            if self.live[i] == h {
                return true;
            }
            i = i + 1;
        }
        false
    }

    /// Whether the allocator can still produce a fresh address.
    pub fn can_serve(&self) -> (b: bool)
        ensures
            b == self.can_allocate(),
    {
        self.next < usize::MAX
    }

    /// Number of allocations served so far.
    pub fn allocations(&self) -> (n: usize)
        ensures
            n == self.alloc_count(),
    {
        self.allocs
    }

    /// Number of releases served so far.
    pub fn releases(&self) -> (n: usize)
        ensures
            n == self.free_count(),
    {
        self.frees
    }

    /// Number of reallocations served so far.
    pub fn reallocations(&self) -> (n: usize)
        ensures
            n == self.realloc_count(),
    {
        self.reallocs
    }
}

/// How a heap changes when the allocator hands out fresh address `h`.
pub open spec fn alloc_step(pre: Heap, post: Heap, h: usize) -> bool {
    &&& FIRST_REAL <= h
    &&& !pre.is_live(h)
    &&& (forall|x: usize| #[trigger] post.is_live(x) <==> pre.is_live(x) || x == h)
    &&& post.live_count() == pre.live_count() + 1
    &&& post.alloc_count() == pre.alloc_count() + 1
    &&& post.free_count() == pre.free_count()
    &&& post.realloc_count() == pre.realloc_count()
    &&& pre.handle_bound() <= h
    &&& post.handle_bound() == pre.handle_bound() + 1
}

/// How a heap changes when the allocator takes live address `h` back.
pub open spec fn free_step(pre: Heap, post: Heap, h: usize) -> bool {
    &&& FIRST_REAL <= h
    &&& pre.is_live(h)
    &&& (forall|x: usize| #[trigger] post.is_live(x) <==> pre.is_live(x) && x != h)
    &&& pre.live_count() == post.live_count() + 1
    &&& post.alloc_count() == pre.alloc_count()
    &&& post.free_count() == pre.free_count() + 1
    &&& post.realloc_count() == pre.realloc_count()
    &&& post.handle_bound() == pre.handle_bound()
}

/// How a heap changes when the allocator moves live address `old_h` to fresh
/// address `new_h`, keeping the contents.
pub open spec fn realloc_step(pre: Heap, post: Heap, old_h: usize, new_h: usize) -> bool {
    &&& FIRST_REAL <= new_h
    &&& pre.is_live(old_h)
    &&& !pre.is_live(new_h)
    &&& (forall|x: usize|
        #[trigger] post.is_live(x) <==> (pre.is_live(x) && x != old_h) || x == new_h)
    &&& post.live_count() == pre.live_count()
    &&& post.alloc_count() == pre.alloc_count()
    &&& post.free_count() == pre.free_count()
    &&& post.realloc_count() == pre.realloc_count() + 1
    &&& pre.handle_bound() <= new_h
    &&& post.handle_bound() == pre.handle_bound() + 1
}

/// Membership in a sequence extended by one element.
proof fn lemma_push_contains(s: Seq<usize>, x: usize, y: usize)
    ensures
        s.push(x).contains(y) <==> (s.contains(y) || y == x),
{
    if s.contains(y) {
        let i = choose|i: int| 0 <= i < s.len() && s[i] == y;
        assert(s.push(x)[i] == y);
    }
    if y == x {
        assert(s.push(x)[s.len() as int] == y);
    }
    if s.push(x).contains(y) {
        let i = choose|i: int| 0 <= i < s.push(x).len() && s.push(x)[i] == y;
        if i < s.len() {
            assert(s[i] == y);
        }
    }
}

/// Membership in a duplicate-free sequence with the element at `i` removed.
proof fn lemma_remove_contains(s: Seq<usize>, i: int, y: usize)
    requires
        0 <= i < s.len(),
        forall|p: int, q: int| 0 <= p < q < s.len() ==> #[trigger] s[p] != #[trigger] s[q],
    ensures
        s.remove(i).contains(y) <==> (s.contains(y) && y != s[i]),
{
    s.remove_ensures(i);
    if s.remove(i).contains(y) {
        let j = choose|j: int| 0 <= j < s.remove(i).len() && s.remove(i)[j] == y;
        if j < i {
            assert(s[j] == y);
            assert(s[j] != s[i]);
        } else {
            assert(s[j + 1] == y);
            assert(s[i] != s[j + 1]);
        }
    }
    if s.contains(y) && y != s[i] {
        let j = choose|j: int| 0 <= j < s.len() && s[j] == y;
        if j < i {
            assert(s.remove(i)[j] == y);
        } else {
            assert(j != i);
            assert(s.remove(i)[j - 1] == y);
        }
    }
}

/// Looks up the position of a live address.
fn find_handle(live: &Vec<usize>, h: usize) -> (i: usize)
    requires
        live@.contains(h),
    ensures
        i < live@.len(),
        live@[i as int] == h,
{
    let n = live.len();
    let mut i: usize = 0;
    while i < n
        invariant
            n == live@.len(),
            i <= n,
            forall|j: int| 0 <= j < i ==> live@[j] != h,
            live@.contains(h),
        decreases n - i,
    {
        if live[i] == h {
            return i;
        }
        i = i + 1;
    }
    proof {
        let j = choose|j: int| 0 <= j < live@.len() && live@[j] == h;
        assert(false);
    }
    vstd::pervasive::unreached()
}

/// The number of bytes a `count`-element allocation requests from the real
/// allocator, or `None` when the product overflows the address space (the
/// fatal-overflow condition).
pub fn alloc_size(elem_size: usize, count: usize) -> (r: Option<usize>)
    ensures
        elem_size * count <= usize::MAX ==> r == Some((elem_size * count) as usize),
        elem_size * count > usize::MAX ==> r is None,
{
    elem_size.checked_mul(count)
}

/// The alignment actually requested from the real allocator: the pointee's
/// alignment, padded up to at least the size of a native pointer (as an
/// aligned-allocation primitive requires).
pub fn effective_align(align: usize) -> (r: usize)
    ensures
        r >= align,
        r as nat >= vstd::layout::size_of::<usize>(),
        r == align || r as nat == vstd::layout::size_of::<usize>(),
{
    let ptr_size = core::mem::size_of::<usize>();
    if align >= ptr_size {
        align
    } else {
        ptr_size
    }
}

/// Allocates space for `count` elements of size `elem_size`.
///
/// A zero-sized element or a zero count never touches the allocator and
/// yields [`SENTINEL`]; otherwise a fresh real address is handed out.  A
/// byte-size overflow or an exhausted allocator would be fatal, so both are
/// excluded by precondition.
pub fn gen_malloc(heap: &mut Heap, elem_size: usize, count: usize) -> (h: usize)
    requires
        old(heap).wf(),
        elem_size * count <= usize::MAX,
        elem_size != 0 && count != 0 ==> old(heap).can_allocate(),
    ensures
        final(heap).wf(),
        elem_size == 0 || count == 0 ==> h == SENTINEL && *final(heap) == *old(heap),
        elem_size != 0 && count != 0 ==> alloc_step(*old(heap), *final(heap), h),
    {
    if elem_size == 0 || count == 0 {
        SENTINEL
    } else {
        let h = heap.next;
        heap.live.push(h);
        heap.next = heap.next + 1;
        heap.allocs = heap.allocs + 1;
        proof {
            assert forall|x: usize| #[trigger]
                heap.is_live(x) <==> old(heap).is_live(x) || x == h by {
                lemma_push_contains(old(heap).live@, h, x);
            }
            assert(!old(heap).is_live(h)) by {
                if old(heap).is_live(h) {
                    old(heap).lemma_live_is_real(h);
                }
            }
        }
        h
    }
}

/// Releases the allocation at `h`.
///
/// The sentinel is not a real allocation, so releasing it is a no-op;
/// otherwise `h` must be live — releasing an address a second time is a
/// contract violation, not a runtime-checked error.  The pointee is not
/// inspected: destroying it is the caller's job (see [`crate::free::Free`]).
pub fn gen_free(heap: &mut Heap, h: usize)
    requires
        old(heap).wf(),
        h == SENTINEL || old(heap).is_live(h),
    ensures
        final(heap).wf(),
        h == SENTINEL ==> *final(heap) == *old(heap),
        h != SENTINEL ==> free_step(*old(heap), *final(heap), h),
    {
    if h != SENTINEL {
        let i = find_handle(&heap.live, h);
        heap.live.remove(i);
        heap.frees = heap.frees + 1;
        proof {
            old(heap).lemma_live_is_real(h);
            assert forall|x: usize| #[trigger]
                heap.is_live(x) <==> old(heap).is_live(x) && x != h by {
                lemma_remove_contains(old(heap).live@, i as int, x);
            }
            old(heap).live@.remove_ensures(i as int);
        }
    }
}

/// Resizes the allocation at `h` to hold `new_count` elements.
///
/// Mirrors the cases of a C `realloc` used through a typed wrapper: a
/// zero-sized element leaves everything untouched; a zero count releases the
/// allocation and yields the sentinel; growing the sentinel is a fresh
/// allocation; and resizing a real allocation may move it, so the old
/// address is invalid afterwards and only the returned one may be used.
pub fn gen_realloc(heap: &mut Heap, h: usize, elem_size: usize, new_count: usize) -> (r: usize)
    requires
        old(heap).wf(),
        h == SENTINEL || old(heap).is_live(h),
        elem_size * new_count <= usize::MAX,
        elem_size != 0 && new_count != 0 ==> old(heap).can_allocate(),
    ensures
        final(heap).wf(),
        elem_size == 0 ==> r == h && *final(heap) == *old(heap),
        elem_size != 0 && new_count == 0 ==> {
            &&& r == SENTINEL
            &&& h == SENTINEL ==> *final(heap) == *old(heap)
            &&& h != SENTINEL ==> free_step(*old(heap), *final(heap), h)
        },
        elem_size != 0 && new_count != 0 && h == SENTINEL ==> alloc_step(
            *old(heap),
            *final(heap),
            r,
        ),
        elem_size != 0 && new_count != 0 && h != SENTINEL ==> realloc_step(
            *old(heap),
            *final(heap),
            h,
            r,
        ),
    {
    if elem_size == 0 {
        h
    } else if new_count == 0 {
        gen_free(heap, h);
        SENTINEL
    } else if h == SENTINEL {
        gen_malloc(heap, elem_size, new_count)
    } else {
        let i = find_handle(&heap.live, h);
        let fresh = heap.next;
        heap.live.remove(i);
        heap.live.push(fresh);
        heap.next = heap.next + 1;
        heap.reallocs = heap.reallocs + 1;
        proof {
            old(heap).lemma_live_is_real(h);
            let removed = old(heap).live@.remove(i as int);
            old(heap).live@.remove_ensures(i as int);
            assert forall|x: usize| #[trigger]
                heap.is_live(x) <==> (old(heap).is_live(x) && x != h) || x == fresh by {
                lemma_push_contains(removed, fresh, x);
                lemma_remove_contains(old(heap).live@, i as int, x);
            }
            assert(!old(heap).is_live(fresh)) by {
                if old(heap).is_live(fresh) {
                    old(heap).lemma_live_is_real(fresh);
                }
            }
        }
        fresh
    }
}

/// Law: an allocation is released exactly once.  Handing out an address and
/// then releasing it returns the allocator to the live set it started with,
/// with one more allocation and one more release on the books.
pub proof fn lemma_single_release(h0: Heap, h1: Heap, h2: Heap, h: usize)
    requires
        alloc_step(h0, h1, h),
        free_step(h1, h2, h),
    ensures
        forall|x: usize| #[trigger] h2.is_live(x) <==> h0.is_live(x),
        h2.live_count() == h0.live_count(),
        h2.alloc_count() == h0.alloc_count() + 1,
        h2.free_count() == h0.free_count() + 1,
        !h2.is_live(h),
{
}

/// Law: no double free.  Once an address has been released, no state the
/// allocator can be in accepts a second release of the same address.
pub proof fn lemma_no_double_release(h1: Heap, h2: Heap, h: usize)
    requires
        free_step(h1, h2, h),
    ensures
        forall|h3: Heap| !free_step(h2, h3, h),
{
    assert forall|h3: Heap| !free_step(h2, h3, h) by {
        assert(!h2.is_live(h));
    }
}

} // verus!
