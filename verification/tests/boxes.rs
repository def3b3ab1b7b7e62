use std::cell::Cell;
use std::rc::Rc;

use mbox::heap::gen_free;
use mbox::Free;
use mbox::Heap;
use mbox::MBox;

#[derive(Clone, Debug, PartialEq, Eq, Default)]
struct SharedCounter {
    counter: Rc<Cell<usize>>,
}

impl SharedCounter {
    fn get(&self) -> usize {
        self.counter.get()
    }

    fn assert_eq(&self, value: usize) {
        assert_eq!(self.get(), value);
    }

    fn inc(&self) {
        self.counter.set(self.counter.get() + 1);
    }
}

/// Counts how many times a value has been dropped.
#[derive(Clone, Debug, PartialEq, Eq, Default)]
struct DropCounter(SharedCounter);

impl DropCounter {
    fn assert_eq(&self, value: usize) {
        self.0.assert_eq(value);
    }

    fn shared(&self) -> SharedCounter {
        self.0.clone()
    }
}

impl Drop for DropCounter {
    fn drop(&mut self) {
        self.0.inc();
    }
}

/// Panics when it is cloned.
#[derive(Default)]
struct PanicOnClone(u8);

impl Clone for PanicOnClone {
    fn clone(&self) -> Self {
        panic!("panic on clone");
    }
}

#[test]
fn test_single_object() {
    let mut heap = Heap::new();
    let counter = DropCounter::default();
    {
        let mbox = MBox::new(&mut heap, counter.clone());
        counter.assert_eq(0);
        drop(mbox);
    }
    counter.assert_eq(1);
}

#[test]
fn test_into_raw() {
    let mut heap = Heap::new();
    let mbox = MBox::new(&mut heap, 66u8);
    let (raw, value) = mbox.into_raw();
    assert_eq!(value, 66u8);
    gen_free(&mut heap, raw);
    assert_eq!(heap.live_handles(), 0);
}

#[test]
fn test_clone() {
    let mut heap = Heap::new();
    let counter = DropCounter::default();
    {
        let first_mbox = MBox::new(&mut heap, counter.clone());
        {
            let second_mbox = first_mbox.clone_in(&mut heap);
            counter.assert_eq(0);
            drop(second_mbox);
        }
        counter.assert_eq(1);
    }
    counter.assert_eq(2);
}

#[test]
fn test_clone_from() {
    let mut heap = Heap::new();
    let counter = DropCounter::default();
    {
        let first_mbox = MBox::new(&mut heap, counter.clone());
        {
            let mut second_mbox = MBox::new(&mut heap, counter.clone());
            counter.assert_eq(0);
            second_mbox.clone_from_in(&first_mbox);
            counter.assert_eq(1);
        }
        counter.assert_eq(2);
    }
    counter.assert_eq(3);
}

fn do_test_for_drop_flag(branch: bool, expected: usize) {
    let counter = DropCounter::default();
    let inner_counter = counter.shared();
    {
        let mut heap = Heap::new();
        let mbox;
        if branch {
            mbox = MBox::new(&mut heap, counter.clone());
            let _ = &mbox;
        }
        assert_eq!(inner_counter.get(), 0);
    }
    assert_eq!(inner_counter.get(), expected);
}

#[test]
fn test_no_drop_flag() {
    do_test_for_drop_flag(true, 1);
    do_test_for_drop_flag(false, 0);
}

#[test]
fn test_standard_traits() {
    let mut heap = Heap::new();
    let mut a = MBox::new(&mut heap, 0u64);
    assert_eq!(*a.get(), 0);
    *a.get_mut() = 3;
    assert_eq!(*a.get(), 3);
    assert_eq!(*a.get(), 3);
    assert_eq!(a.replace(3), 3);
    assert!(*a.get() == *MBox::new(&mut heap, 3u64).get());
    assert!(*a.get() != *MBox::new(&mut heap, 0u64).get());
    assert!(*a.get() < *MBox::new(&mut heap, 4u64).get());
    assert!(*a.get() > *MBox::new(&mut heap, 2u64).get());
    assert!(*a.get() <= *MBox::new(&mut heap, 4u64).get());
    assert!(*a.get() >= *MBox::new(&mut heap, 2u64).get());
    assert_eq!(a.get().cmp(MBox::new(&mut heap, 7u64).get()), std::cmp::Ordering::Less);
}

#[test]
fn test_zero_sized_type() {
    let mut heap = Heap::new();
    let a = MBox::new(&mut heap, ());
    assert!(a.as_ptr() != 0);
    assert_eq!(heap.allocations(), 0);
}

#[test]
fn test_non_zero() {
    let mut heap = Heap::new();
    let b = 0u64;
    assert!(!Some(MBox::new(&mut heap, 0u64)).is_none());
    assert!(!Some(MBox::new(&mut heap, ())).is_none());
    assert!(!Some(MBox::new(&mut heap, &b)).is_none());
}

#[test]
#[should_panic(expected = "panic on clone")]
fn test_panic_during_clone() {
    let mut heap = Heap::new();
    let mbox = MBox::new(&mut heap, PanicOnClone::default());
    let _ = mbox.clone_in(&mut heap);
}

#[test]
#[should_panic(expected = "panic on clone")]
fn test_panic_during_clone_from() {
    let mut heap = Heap::new();
    let mut mbox = MBox::new(&mut heap, PanicOnClone::default());
    let other = MBox::new(&mut heap, PanicOnClone::default());
    mbox.clone_from_in(&other);
}

#[test]
fn test_raw_round_trip() {
    let mut heap = Heap::new();
    let first = MBox::new(&mut heap, 41u32);
    let (handle, value) = first.into_raw();
    let second = MBox::from_raw(&heap, handle, value);
    assert_eq!(*second.get(), 41);
    second.free(&mut heap);
    assert_eq!(heap.allocations(), 1);
    assert_eq!(heap.releases(), 1);
    assert_eq!(heap.live_handles(), 0);
}
