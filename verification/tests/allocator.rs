use mbox::heap::alloc_size;
use mbox::heap::effective_align;
use mbox::heap::gen_free;
use mbox::heap::gen_malloc;
use mbox::heap::gen_realloc;
use mbox::heap::SENTINEL;
use mbox::placer::MallocPlacer;
use mbox::placer::MPlace;
use mbox::Free;
use mbox::Heap;
use mbox::MBox;
use mbox::MSlice;
use mbox::MSliceBuilder;
use mbox::MStr;

#[test]
fn test_hello_scenario() {
    // push the UTF-8 bytes of "hello" one at a time into a builder that
    // starts with room for a single element
    let mut heap = Heap::new();
    let mut builder = MSliceBuilder::with_capacity(&mut heap, 1);
    let mut expected_slots = vec![1usize];
    for &b in b"hello" {
        builder.push(&mut heap, b);
        expected_slots.push(builder.slots());
    }
    // capacity sequence 1 -> 2 -> 4 -> 8: three reallocations
    assert_eq!(expected_slots, vec![1, 1, 2, 4, 4, 8]);
    assert_eq!(builder.slots(), 8);
    assert_eq!(heap.reallocations(), 3);
    assert_eq!(heap.allocations(), 1);

    let slice = builder.into_mboxed_slice();
    assert_eq!(slice.len(), 5);
    assert_eq!(slice.as_slice(), &[0x68, 0x65, 0x6c, 0x6c, 0x6f]);

    let text = MStr::from_utf8(slice).ok().unwrap();
    assert_eq!(text.as_str(), "hello");

    text.free(&mut heap);
    assert_eq!(heap.live_handles(), 0);
    assert_eq!(heap.releases(), 1);
}

#[test]
fn test_single_free_accounting() {
    let mut heap = Heap::new();
    let b = MBox::new(&mut heap, 1u32);
    let handle = b.as_ptr();
    assert!(heap.is_allocated(handle));
    assert_eq!(heap.allocations(), 1);
    assert_eq!(heap.live_handles(), 1);
    b.free(&mut heap);
    assert!(!heap.is_allocated(handle));
    assert_eq!(heap.allocations(), 1);
    assert_eq!(heap.releases(), 1);
    assert_eq!(heap.live_handles(), 0);
}

#[test]
fn test_zero_size_never_allocates() {
    let mut heap = Heap::new();
    let h = gen_malloc(&mut heap, 0, 10);
    assert_eq!(h, SENTINEL);
    let h = gen_malloc(&mut heap, 8, 0);
    assert_eq!(h, SENTINEL);
    gen_free(&mut heap, SENTINEL);
    let h = gen_realloc(&mut heap, SENTINEL, 0, 4);
    assert_eq!(h, SENTINEL);
    assert_eq!(heap.allocations(), 0);
    assert_eq!(heap.releases(), 0);
    assert_eq!(heap.reallocations(), 0);
    assert_eq!(heap.live_handles(), 0);

    let empty = MSlice::<u64>::default();
    assert_eq!(empty.len(), 0);
    assert!(empty.as_ptr() != 0);
    let mut iter = empty.into_iter();
    assert_eq!(iter.next(), None);
    assert_eq!(iter.next_back(), None);
    iter.free(&mut heap);
    assert_eq!(heap.releases(), 0);
}

#[test]
fn test_realloc_cases() {
    let mut heap = Heap::new();
    // growing the sentinel is a fresh allocation
    let h = gen_realloc(&mut heap, SENTINEL, 4, 4);
    assert_ne!(h, SENTINEL);
    assert_eq!(heap.allocations(), 1);
    // resizing a real allocation may move it
    let h2 = gen_realloc(&mut heap, h, 4, 8);
    assert!(!heap.is_allocated(h));
    assert!(heap.is_allocated(h2));
    assert_eq!(heap.reallocations(), 1);
    // shrinking to nothing releases it
    let h3 = gen_realloc(&mut heap, h2, 4, 0);
    assert_eq!(h3, SENTINEL);
    assert_eq!(heap.releases(), 1);
    assert_eq!(heap.live_handles(), 0);
}

#[test]
fn test_alloc_size_overflow() {
    assert_eq!(alloc_size(8, 2), Some(16));
    assert_eq!(alloc_size(0, usize::MAX), Some(0));
    assert_eq!(alloc_size(8, usize::MAX), None);
}

#[test]
fn test_effective_align() {
    let ptr_size = std::mem::size_of::<usize>();
    assert_eq!(effective_align(1), ptr_size);
    assert_eq!(effective_align(ptr_size), ptr_size);
    assert_eq!(effective_align(64), 64);
}

#[test]
fn test_place_discard() {
    let mut heap = Heap::new();
    let _placer = MallocPlacer::new();
    let handle = gen_malloc(&mut heap, 4, 1);
    let place: MPlace<u32> = MPlace::from_raw(&heap, handle);
    place.discard(&mut heap);
    assert_eq!(heap.releases(), 1);
    assert_eq!(heap.live_handles(), 0);
}
