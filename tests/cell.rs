use ivar::IVarCell;

#[test]
fn new_cell_has_one_ref_and_no_flags() {
    let c = IVarCell::<u32>::new();
    assert_eq!(c.strong_refs(), 1);
    assert!(!c.was_ever_filled());
    assert!(!c.is_currently_filled());
    assert_eq!(c.peek(), None);
}

#[test]
fn cell_fill_peek_take() {
    let mut c = IVarCell::new();
    c.fill(17u32);
    assert!(c.was_ever_filled());
    assert!(c.is_currently_filled());
    assert_eq!(c.peek(), Some(&17u32));
    assert_eq!(c.take(), Some(17u32));
    assert!(c.was_ever_filled());
    assert!(!c.is_currently_filled());
    assert_eq!(c.peek(), None);
    assert_eq!(c.take(), None);
}

#[test]
fn cell_take_before_fill_is_none() {
    let mut c = IVarCell::<i64>::new();
    assert_eq!(c.take(), None);
    assert!(!c.was_ever_filled());
    assert_eq!(c.strong_refs(), 1);
}

#[test]
fn fill_leaves_the_count() {
    let mut c = IVarCell::new();
    c.inc_ref();
    c.fill(1u8);
    assert_eq!(c.strong_refs(), 2);
    assert!(!c.dec_ref());
    assert_eq!(c.strong_refs(), 1);
    assert!(c.dec_ref());
    assert_eq!(c.strong_refs(), 0);
}

#[test]
fn ref_counting_signals_zero_once() {
    let mut c = IVarCell::<u8>::new();
    c.inc_ref();
    c.inc_ref();
    assert_eq!(c.strong_refs(), 3);
    assert!(!c.dec_ref());
    assert!(!c.dec_ref());
    assert!(c.dec_ref());
    assert_eq!(c.strong_refs(), 0);
}

#[test]
fn state_bits_are_independent() {
    let mut c = IVarCell::<u8>::new();
    c.inc_ref();
    c.set_filled();
    assert!(c.was_ever_filled());
    assert!(c.is_currently_filled());
    assert_eq!(c.strong_refs(), 2);
    c.mark_taken();
    assert!(c.was_ever_filled());
    assert!(!c.is_currently_filled());
    assert_eq!(c.strong_refs(), 2);
}

#[test]
fn fill_once_refuses_a_second_value() {
    let mut c = IVarCell::new();
    assert_eq!(c.fill_once(4u32), None);
    assert_eq!(c.fill_once(5u32), Some(5u32));
    assert_eq!(c.peek(), Some(&4u32));
    assert_eq!(c.take(), Some(4u32));
    assert_eq!(c.fill_once(6u32), Some(6u32));
    assert_eq!(c.peek(), None);
    assert!(c.was_ever_filled());
}

#[test]
fn last_dropped_handle_hands_out_the_value() {
    let mut c = IVarCell::new();
    c.add_handle();
    assert_eq!(c.strong_refs(), 2);
    c.fill(8u16);
    assert_eq!(c.drop_handle(), None);
    assert_eq!(c.strong_refs(), 1);
    assert!(c.is_currently_filled());
    assert_eq!(c.drop_handle(), Some(8u16));
    assert_eq!(c.strong_refs(), 0);
    assert!(!c.is_currently_filled());
    assert!(c.was_ever_filled());
    assert_eq!(c.peek(), None);
}

#[test]
fn last_dropped_handle_of_taken_cell_hands_out_nothing() {
    let mut c = IVarCell::new();
    c.fill(2i8);
    assert_eq!(c.take(), Some(2i8));
    assert_eq!(c.drop_handle(), None);
    assert_eq!(c.strong_refs(), 0);
}
