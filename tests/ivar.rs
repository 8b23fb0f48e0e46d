use ivar::{new, IVarRd};
use std::cell::Cell;
use std::rc::Rc;

/// A payload that counts how often it was dropped.
struct Counted {
    drops: Rc<Cell<u32>>,
}

impl Drop for Counted {
    fn drop(&mut self) {
        self.drops.set(self.drops.get() + 1);
    }
}

#[test]
fn simple_usage() {
    let (mut rd, wr) = new();

    assert_eq!(rd.take(), None);
    wr.fill(1usize);
    assert_eq!(rd.peek(), Some(1usize));
    assert_eq!(rd.take(), Some(1usize));
    assert_eq!(rd.peek(), None);
}

#[test]
fn fresh_pair_is_empty() {
    let (mut rd, _wr) = new::<u32>();
    assert_eq!(rd.peek(), None);
    assert!(!rd.is_filled());
    assert!(!rd.was_ever_filled());
    assert_eq!(rd.take(), None);
    assert!(!rd.is_filled());
    assert!(!rd.was_ever_filled());
}

#[test]
fn fill_is_visible() {
    let (rd, wr) = new();
    wr.fill(String::from("seven"));
    assert_eq!(rd.peek(), Some(String::from("seven")));
    assert!(rd.is_filled());
    assert!(rd.was_ever_filled());
    assert_eq!(rd.peek(), Some(String::from("seven")));
}

#[test]
fn take_once() {
    let (mut rd, wr) = new();
    let mut other = rd.clone();
    wr.fill(5u64);
    assert_eq!(rd.take(), Some(5u64));
    assert_eq!(rd.take(), None);
    assert_eq!(rd.peek(), None);
    assert_eq!(other.take(), None);
    assert_eq!(other.peek(), None);
    assert!(!rd.is_filled());
    assert!(!other.is_filled());
    assert!(rd.was_ever_filled());
    assert!(other.was_ever_filled());
}

#[test]
fn take_through_clone_empties_original() {
    let (mut rd, wr) = new();
    wr.fill(9i32);
    let mut copy = rd.clone();
    assert_eq!(copy.take(), Some(9i32));
    assert_eq!(rd.peek(), None);
    assert_eq!(rd.take(), None);
    assert!(rd.was_ever_filled());
}

#[test]
fn clone_before_fill_sees_fill() {
    let (rd, wr) = new();
    let copy = rd.clone();
    wr.fill(3u8);
    assert_eq!(copy.peek(), Some(3u8));
    assert_eq!(rd.peek(), Some(3u8));
}

#[test]
fn two_clones_one_winner() {
    let (rd, wr) = new();
    let mut a: IVarRd<u32> = rd.clone();
    let mut b: IVarRd<u32> = rd.clone();
    wr.fill(42u32);
    assert_eq!(a.take(), Some(42u32));
    assert_eq!(b.take(), None);
    assert_eq!(rd.peek(), None);
}

#[test]
fn untaken_value_is_disposed_once() {
    let drops = Rc::new(Cell::new(0u32));
    let (rd, wr) = new();
    let copy = rd.clone();
    wr.fill(Counted { drops: drops.clone() });
    assert_eq!(drops.get(), 0);
    drop(rd);
    assert_eq!(drops.get(), 0);
    drop(copy);
    assert_eq!(drops.get(), 1);
}

#[test]
fn taken_value_is_not_disposed_again() {
    let drops = Rc::new(Cell::new(0u32));
    let (mut rd, wr) = new();
    wr.fill(Counted { drops: drops.clone() });
    let v = rd.take();
    assert!(v.is_some());
    assert_eq!(drops.get(), 0);
    drop(v);
    assert_eq!(drops.get(), 1);
    drop(rd);
    assert_eq!(drops.get(), 1);
}

#[test]
fn never_filled_pair_drops_cleanly() {
    let drops = Rc::new(Cell::new(0u32));
    let (rd, wr) = new::<Counted>();
    let copy = rd.clone();
    drop(wr);
    drop(rd);
    assert!(!copy.is_filled());
    drop(copy);
    assert_eq!(drops.get(), 0);
}

#[test]
fn value_lives_while_a_handle_remains() {
    let drops = Rc::new(Cell::new(0u32));
    let (rd, wr) = new();
    let a = rd.clone();
    let b = rd.clone();
    wr.fill(Counted { drops: drops.clone() });
    drop(rd);
    drop(a);
    assert_eq!(drops.get(), 0);
    assert!(b.is_filled());
    assert!(b.was_ever_filled());
    drop(b);
    assert_eq!(drops.get(), 1);
}

#[test]
fn write_handle_dropped_unfilled() {
    let (mut rd, wr) = new::<u16>();
    drop(wr);
    assert_eq!(rd.take(), None);
    assert!(!rd.was_ever_filled());
}

#[test]
fn fill_after_all_readers_dropped_disposes_value() {
    let drops = Rc::new(Cell::new(0u32));
    let (rd, wr) = new();
    drop(rd);
    wr.fill(Counted { drops: drops.clone() });
    assert_eq!(drops.get(), 1);
}
