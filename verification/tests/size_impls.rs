use generic_cache::Size;
use std::marker::PhantomData;
use std::rc::Rc;
use std::sync::Arc;

#[derive(Clone)]
struct Blob {
    bytes: usize,
}

impl Size for Blob {
    fn get_heap_size(&self) -> usize {
        self.bytes
    }
}

#[test]
fn primitives_have_no_heap() {
    assert_eq!(5u64.get_heap_size(), 0);
    assert_eq!(5u64.get_size(), 8);
    assert_eq!(true.get_size(), 1);
    assert_eq!('c'.get_size(), 4);
    assert_eq!(().get_size(), 0);
    assert_eq!((-3i16).get_size(), 2);
    assert_eq!(u128::get_stack_size(), 16);
    assert_eq!(PhantomData::<u64>.get_size(), 0);
}

#[test]
fn vectors_count_their_elements() {
    let v: Vec<u32> = vec![1, 2, 3];
    assert_eq!(v.get_heap_size(), 12);
    assert_eq!(v.get_size(), std::mem::size_of::<Vec<u32>>() + 12);
    let nested: Vec<Vec<u8>> = vec![vec![1, 2], vec![]];
    let inner = std::mem::size_of::<Vec<u8>>();
    assert_eq!(nested.get_heap_size(), 2 * inner + 2);
    let blobs = vec![Blob { bytes: 10 }, Blob { bytes: 20 }];
    assert_eq!(blobs.get_heap_size(), 2 * std::mem::size_of::<Blob>() + 30);
}

#[test]
fn arrays_count_only_element_heaps() {
    let a = [Blob { bytes: 3 }, Blob { bytes: 4 }];
    assert_eq!(a.get_heap_size(), 7);
    assert_eq!(a.get_size(), std::mem::size_of::<[Blob; 2]>() + 7);
    assert_eq!([1u8; 4].get_heap_size(), 0);
}

#[test]
fn pointers_count_the_pointee() {
    let b = Box::new(Blob { bytes: 5 });
    assert_eq!(b.get_heap_size(), std::mem::size_of::<Blob>() + 5);
    let r = Rc::new(7u32);
    assert_eq!(r.get_heap_size(), 4);
    let a = Arc::new(7u64);
    assert_eq!(a.get_heap_size(), 8);
    let x = 1u16;
    assert_eq!(<&u16 as Size>::get_heap_size(&&x), 2);
}

#[test]
fn options_results_and_tuples() {
    assert_eq!(Some(Blob { bytes: 9 }).get_heap_size(), 9);
    assert_eq!(None::<Blob>.get_heap_size(), 0);
    let ok: Result<Blob, Blob> = Ok(Blob { bytes: 1 });
    let err: Result<Blob, Blob> = Err(Blob { bytes: 2 });
    assert_eq!(ok.get_heap_size(), 1);
    assert_eq!(err.get_heap_size(), 2);
    assert_eq!((Blob { bytes: 1 },).get_heap_size(), 1);
    assert_eq!((Blob { bytes: 1 }, Blob { bytes: 2 }).get_heap_size(), 3);
    assert_eq!((Blob { bytes: 1 }, Blob { bytes: 2 }, Blob { bytes: 3 }).get_heap_size(), 6);
    assert_eq!((Blob { bytes: 1 }, Blob { bytes: 2 }, Blob { bytes: 3 }, Blob { bytes: 4 }).get_heap_size(), 10);
    assert_eq!((1u8, vec![1u8, 2]).get_heap_size(), 2);
}

#[test]
fn deques_cows_and_markers() {
    let mut d: std::collections::VecDeque<u16> = std::collections::VecDeque::new();
    d.push_back(1);
    d.push_front(2);
    assert_eq!(d.get_heap_size(), 4);
    let owned: std::borrow::Cow<'_, Blob> = std::borrow::Cow::Owned(Blob { bytes: 3 });
    assert_eq!(owned.get_heap_size(), 3);
    let b = Blob { bytes: 3 };
    let borrowed: std::borrow::Cow<'_, Blob> = std::borrow::Cow::Borrowed(&b);
    assert_eq!(borrowed.get_heap_size(), std::mem::size_of::<Blob>() + 3);
    assert_eq!(std::marker::PhantomPinned.get_size(), 0);
    let mut x = 5u32;
    let r = &mut x;
    assert_eq!(<&mut u32 as Size>::get_heap_size(&r), 4);
}

#[test]
fn long_tuples_add_heaps() {
    let t = (Blob { bytes: 1 }, Blob { bytes: 2 }, Blob { bytes: 3 }, Blob { bytes: 4 }, Blob { bytes: 5 });
    assert_eq!(t.get_heap_size(), 15);
    let t16 = (1u8, 2u8, 3u8, 4u8, 5u8, 6u8, 7u8, 8u8, 9u8, 10u8, 11u8, 12u8, 13u8, 14u8, 15u8, vec![1u8, 2, 3]);
    assert_eq!(t16.get_heap_size(), 3);
}
