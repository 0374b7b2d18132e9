use std::cell::Cell;
use std::rc::Rc;

use try_from_iterator::{NotEnoughItems, TryFromIterator};

#[test]
fn try_from_iter() {
    let array = <[_; 5]>::try_from_iter(&mut [0, 1, 2, 3, 4].into_iter()).unwrap();
    assert_eq!(&array, &[0, 1, 2, 3, 4]);
}

#[test]
fn short_source_fails() {
    let r = <[i32; 5]>::try_from_iter(&mut vec![0, 1, 2].into_iter());
    assert_eq!(r, Err(NotEnoughItems));
}

#[test]
fn empty_source_fails_for_nonzero_size() {
    let r = <[i32; 1]>::try_from_iter(&mut Vec::new().into_iter());
    assert_eq!(r, Err(NotEnoughItems));
}

#[test]
fn zero_size_pulls_nothing() {
    let mut source = vec![7, 8, 9].into_iter();
    let r = <[i32; 0]>::try_from_iter(&mut source).unwrap();
    assert_eq!(r, []);
    assert_eq!(source.collect::<Vec<_>>(), vec![7, 8, 9]);
}

#[test]
fn zero_size_from_empty_source() {
    let r = <[i32; 0]>::try_from_iter(&mut Vec::new().into_iter());
    assert_eq!(r, Ok([]));
}

#[test]
fn longer_source_keeps_its_tail() {
    let mut source = vec![1, 2, 3, 4, 5].into_iter();
    let r = <[i32; 3]>::try_from_iter(&mut source).unwrap();
    assert_eq!(r, [1, 2, 3]);
    assert_eq!(source.collect::<Vec<_>>(), vec![4, 5]);
}

#[test]
fn pulls_at_most_n_from_endless_source() {
    let mut pulled: usize = 0;
    let mut source = std::iter::repeat_with(|| {
        pulled += 1;
        pulled
    });
    let r = <[usize; 4]>::try_from_iter(&mut source).unwrap();
    assert_eq!(r, [1, 2, 3, 4]);
    assert_eq!(source.next(), Some(5));
}

#[test]
fn exact_length_source_succeeds() {
    let r = <[char; 2]>::try_from_iter(&mut vec!['a', 'b'].into_iter());
    assert_eq!(r, Ok(['a', 'b']));
}

struct Counted {
    drops: Rc<Cell<usize>>,
}

impl Drop for Counted {
    fn drop(&mut self) {
        self.drops.set(self.drops.get() + 1);
    }
}

fn counted(n: usize, drops: &Rc<Cell<usize>>) -> Vec<Counted> {
    let mut v = Vec::new();
    for _ in 0..n {
        v.push(Counted { drops: drops.clone() });
    }
    v
}

#[test]
fn failure_drops_written_items_once() {
    let drops = Rc::new(Cell::new(0));
    let r = <[Counted; 5]>::try_from_iter(&mut counted(3, &drops).into_iter());
    assert!(r.is_err());
    assert_eq!(drops.get(), 3);
}

#[test]
fn success_drops_items_once_with_the_array() {
    let drops = Rc::new(Cell::new(0));
    let r = <[Counted; 4]>::try_from_iter(&mut counted(4, &drops).into_iter());
    assert!(r.is_ok());
    assert_eq!(drops.get(), 0);
    drop(r);
    assert_eq!(drops.get(), 4);
}

#[test]
fn vector_takes_every_item() {
    let mut source = vec![3, 1, 2].into_iter();
    let v = <Vec<i32>>::try_from_iter(&mut source).unwrap();
    assert_eq!(v, vec![3, 1, 2]);
    assert_eq!(source.next(), None);
}

#[test]
fn vector_from_empty_source() {
    let v = <Vec<u8>>::try_from_iter(&mut Vec::new().into_iter()).unwrap();
    assert!(v.is_empty());
}

#[test]
fn vector_round_trip() {
    let v = <Vec<i32>>::try_from_iter(&mut vec![5, 6, 7, 8].into_iter()).unwrap();
    assert_eq!(v.len(), 4);
    let w = <Vec<i32>>::try_from_iter(&mut v.clone().into_iter()).unwrap();
    assert_eq!(w, v);
}

#[test]
fn array_round_trip_values() {
    let a = <[i32; 2]>::try_from_iter(&mut vec![9, 8, 7].into_iter()).unwrap();
    let b = <[i32; 2]>::try_from_iter(&mut a.into_iter()).unwrap();
    assert_eq!(a, b);
}
