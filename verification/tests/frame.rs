//! Frames: slots, local variables and the operand stack.

use rustj::runtime::frame::{Frame, FrameError};
use rustj::runtime::local_vars::LocalVars;
use rustj::runtime::operand_stack::OperandStack;
use rustj::runtime::slot::{Reference, Slot};

#[test]
fn category_detection() {
    assert!(Slot::Long(5).is_category_2());
    assert!(Slot::Double(1.0f64.to_bits()).is_category_2());
    assert!(!Slot::Int(5).is_category_2());
    assert!(!Slot::Float(1.0f32.to_bits()).is_category_2());
    assert!(!Slot::Top.is_category_2());
}

#[test]
fn reference_null_round_trip() {
    let n = Reference::null();
    assert!(n.is_null());
    assert_eq!(n.id(), None);
    let r = Reference::from_id(42);
    assert!(!r.is_null());
    assert_eq!(r.id(), Some(42));
}

#[test]
fn default_reference_is_null() {
    assert_eq!(Reference::default(), Reference::null());
}


#[test]
fn new_initializes_to_top() {
    let lv = LocalVars::new(3);
    assert_eq!(lv.len(), 3);
    assert_eq!(lv.slot(0).unwrap(), &Slot::Top);
}

#[test]
fn int_round_trip() {
    let mut lv = LocalVars::new(2);
    lv.set_int(0, 99).unwrap();
    assert_eq!(lv.get_int(0).unwrap(), 99);
}

#[test]
fn long_spans_two_indices() {
    let mut lv = LocalVars::new(4);
    lv.set_long(1, 1_000_000_000_000).unwrap();
    assert_eq!(lv.get_long(1).unwrap(), 1_000_000_000_000);
    assert_eq!(lv.slot(2).unwrap(), &Slot::Top);
}

#[test]
fn local_vars_references_round_trip() {
    let mut lv = LocalVars::new(2);
    lv.set_reference(0, Reference::from_id(5)).unwrap();
    assert_eq!(lv.get_reference(0).unwrap().id(), Some(5));
    lv.set_reference(1, Reference::null()).unwrap();
    assert!(lv.get_reference(1).unwrap().is_null());
}

#[test]
fn bad_index_is_rejected() {
    let mut lv = LocalVars::new(2);
    assert_eq!(lv.set_int(5, 1).unwrap_err(), FrameError::BadLocalIndex(5));
    assert_eq!(lv.get_int(5).unwrap_err(), FrameError::BadLocalIndex(5));
}

#[test]
fn long_at_last_index_overflows() {
    let mut lv = LocalVars::new(2);
    assert_eq!(lv.set_long(1, 0).unwrap_err(), FrameError::BadLocalIndex(2));
}

#[test]
fn local_vars_type_mismatch_is_rejected() {
    let mut lv = LocalVars::new(2);
    lv.set_int(0, 1).unwrap();
    assert_eq!(lv.get_long(0).unwrap_err(), FrameError::TypeMismatch);
}


#[test]
fn push_and_pop_int_round_trip() {
    let mut s = OperandStack::new(4);
    s.push_int(42).unwrap();
    assert_eq!(s.depth(), 1);
    assert_eq!(s.pop_int().unwrap(), 42);
    assert_eq!(s.depth(), 0);
}

#[test]
fn long_occupies_two_slots() {
    let mut s = OperandStack::new(4);
    s.push_long(123_456_789_012).unwrap();
    assert_eq!(s.depth(), 2);
    assert_eq!(s.pop_long().unwrap(), 123_456_789_012);
    assert_eq!(s.depth(), 0);
}

#[test]
fn double_occupies_two_slots() {
    let mut s = OperandStack::new(4);
    s.push_double(2.5f64.to_bits()).unwrap();
    assert_eq!(s.depth(), 2);
    assert!((f64::from_bits(s.pop_double().unwrap()) - 2.5).abs() < 1e-12);
}

#[test]
fn overflow_is_rejected() {
    let mut s = OperandStack::new(1);
    assert!(s.push_int(1).is_ok());
    assert_eq!(s.push_int(2).unwrap_err(), FrameError::Overflow);
    let mut s2 = OperandStack::new(1);
    assert_eq!(s2.push_long(0).unwrap_err(), FrameError::Overflow);
}

#[test]
fn underflow_is_rejected() {
    let mut s = OperandStack::new(4);
    assert_eq!(s.pop_int().unwrap_err(), FrameError::Underflow);
    let mut s2 = OperandStack::new(4);
    s2.push_int(1).unwrap();
    assert_eq!(s2.pop_long().unwrap_err(), FrameError::Underflow);
}

#[test]
fn operand_stack_type_mismatch_is_rejected() {
    let mut s = OperandStack::new(4);
    s.push_int(1).unwrap();
    s.push_int(2).unwrap();
    assert_eq!(s.pop_long().unwrap_err(), FrameError::TypeMismatch);
    s.push_long(1).unwrap();
    assert_eq!(s.pop_int().unwrap_err(), FrameError::TypeMismatch);
}

#[test]
fn operand_stack_references_round_trip() {
    let mut s = OperandStack::new(4);
    s.push_reference(Reference::from_id(7)).unwrap();
    s.push_reference(Reference::null()).unwrap();
    assert!(s.pop_reference().unwrap().is_null());
    assert_eq!(s.pop_reference().unwrap().id(), Some(7));
}

#[test]
fn interleaved_values_keep_order() {
    let mut s = OperandStack::new(8);
    s.push_int(1).unwrap();
    s.push_long(2).unwrap();
    s.push_int(3).unwrap();
    assert_eq!(s.depth(), 4);
    assert_eq!(s.pop_int().unwrap(), 3);
    assert_eq!(s.pop_long().unwrap(), 2);
    assert_eq!(s.pop_int().unwrap(), 1);
}

#[test]
fn clear_empties_a_populated_stack() {
    let mut s = OperandStack::new(4);
    s.push_int(1).unwrap();
    s.push_int(2).unwrap();
    assert_eq!(s.depth(), 2);
    s.clear();
    assert!(s.is_empty());
    assert_eq!(s.depth(), 0);
    s.push_int(9).unwrap();
    assert_eq!(s.depth(), 1);
}

#[test]
fn dup_x1_inserts_copy_two_down() {
    let mut s = OperandStack::new(5);
    s.push_int(1).unwrap();
    s.push_int(2).unwrap();
    s.dup_x1().unwrap();
    assert_eq!(s.depth(), 3);
    assert_eq!(s.pop_int().unwrap(), 2);
    assert_eq!(s.pop_int().unwrap(), 1);
    assert_eq!(s.pop_int().unwrap(), 2);
}

#[test]
fn dup_x2_below_two_cat1() {
    let mut s = OperandStack::new(6);
    s.push_int(3).unwrap();
    s.push_int(2).unwrap();
    s.push_int(1).unwrap();
    s.dup_x2().unwrap();
    assert_eq!(s.depth(), 4);
    assert_eq!(s.pop_int().unwrap(), 1);
    assert_eq!(s.pop_int().unwrap(), 2);
    assert_eq!(s.pop_int().unwrap(), 3);
    assert_eq!(s.pop_int().unwrap(), 1);
}

#[test]
fn dup_x2_below_one_cat2() {
    let mut s = OperandStack::new(6);
    s.push_long(10).unwrap();
    s.push_int(1).unwrap();
    s.dup_x2().unwrap();
    assert_eq!(s.depth(), 4);
    assert_eq!(s.pop_int().unwrap(), 1);
    assert_eq!(s.pop_long().unwrap(), 10);
    assert_eq!(s.pop_int().unwrap(), 1);
}

#[test]
fn dup2_two_cat1() {
    let mut s = OperandStack::new(6);
    s.push_int(1).unwrap();
    s.push_int(2).unwrap();
    s.dup2().unwrap();
    assert_eq!(s.depth(), 4);
    assert_eq!(s.pop_int().unwrap(), 2);
    assert_eq!(s.pop_int().unwrap(), 1);
    assert_eq!(s.pop_int().unwrap(), 2);
    assert_eq!(s.pop_int().unwrap(), 1);
}

#[test]
fn dup2_one_cat2() {
    let mut s = OperandStack::new(6);
    s.push_double(1.5f64.to_bits()).unwrap();
    s.dup2().unwrap();
    assert_eq!(s.depth(), 4);
    assert!((f64::from_bits(s.pop_double().unwrap()) - 1.5).abs() < 1e-12);
    assert!((f64::from_bits(s.pop_double().unwrap()) - 1.5).abs() < 1e-12);
}

#[test]
fn dup2_x1_form1_three_cat1() {
    let mut s = OperandStack::new(7);
    s.push_int(3).unwrap();
    s.push_int(2).unwrap();
    s.push_int(1).unwrap();
    s.dup2_x1().unwrap();
    assert_eq!(s.depth(), 5);
    assert_eq!(s.pop_int().unwrap(), 1);
    assert_eq!(s.pop_int().unwrap(), 2);
    assert_eq!(s.pop_int().unwrap(), 3);
    assert_eq!(s.pop_int().unwrap(), 1);
    assert_eq!(s.pop_int().unwrap(), 2);
}

#[test]
fn dup2_x1_form2_cat2_on_top() {
    let mut s = OperandStack::new(6);
    s.push_int(7).unwrap();
    s.push_long(9).unwrap();
    s.dup2_x1().unwrap();
    assert_eq!(s.depth(), 5);
    assert_eq!(s.pop_long().unwrap(), 9);
    assert_eq!(s.pop_int().unwrap(), 7);
    assert_eq!(s.pop_long().unwrap(), 9);
}

#[test]
fn dup2_x2_form1_four_cat1() {
    let mut s = OperandStack::new(8);
    s.push_int(4).unwrap();
    s.push_int(3).unwrap();
    s.push_int(2).unwrap();
    s.push_int(1).unwrap();
    s.dup2_x2().unwrap();
    assert_eq!(s.depth(), 6);
    assert_eq!(s.pop_int().unwrap(), 1);
    assert_eq!(s.pop_int().unwrap(), 2);
    assert_eq!(s.pop_int().unwrap(), 3);
    assert_eq!(s.pop_int().unwrap(), 4);
    assert_eq!(s.pop_int().unwrap(), 1);
    assert_eq!(s.pop_int().unwrap(), 2);
}

#[test]
fn dup2_x2_form4_two_cat2() {
    let mut s = OperandStack::new(8);
    s.push_long(20).unwrap();
    s.push_long(10).unwrap();
    s.dup2_x2().unwrap();
    assert_eq!(s.depth(), 6);
    assert_eq!(s.pop_long().unwrap(), 10);
    assert_eq!(s.pop_long().unwrap(), 20);
    assert_eq!(s.pop_long().unwrap(), 10);
}

#[test]
fn pop2_removes_one_cat2_or_two_cat1() {
    let mut s = OperandStack::new(4);
    s.push_int(1).unwrap();
    s.push_int(2).unwrap();
    s.pop2().unwrap();
    assert!(s.is_empty());
    s.push_long(5).unwrap();
    s.pop2().unwrap();
    assert!(s.is_empty());
}

#[test]
fn swap_top_two_cat1() {
    let mut s = OperandStack::new(4);
    s.push_int(1).unwrap();
    s.push_int(2).unwrap();
    s.swap().unwrap();
    assert_eq!(s.depth(), 2);
    assert_eq!(s.pop_int().unwrap(), 1);
    assert_eq!(s.pop_int().unwrap(), 2);
}

#[test]
fn every_kind_of_local_round_trips() {
    let mut lv = LocalVars::new(8);
    lv.set_float(0, 1.5f32.to_bits()).unwrap();
    lv.set_double(1, 2.5f64.to_bits()).unwrap();
    lv.set_int(3, -7).unwrap();
    assert_eq!(lv.get_float(0), Ok(1.5f32.to_bits()));
    assert_eq!(lv.get_double(1), Ok(2.5f64.to_bits()));
    assert_eq!(lv.get_int(3), Ok(-7));
    assert_eq!(lv.slot(2), Ok(&Slot::Top));
    assert_eq!(lv.slot(8), Err(FrameError::BadLocalIndex(8)));
    assert!(!lv.is_empty());
    assert!(LocalVars::new(0).is_empty());
}

#[test]
fn wide_local_past_the_last_index_is_named() {
    let mut lv = LocalVars::new(2);
    assert_eq!(lv.set_double(1, 0), Err(FrameError::BadLocalIndex(2)));
    assert_eq!(lv.get_long(4), Err(FrameError::BadLocalIndex(4)));
}

#[test]
fn pushed_then_popped_leaves_the_stack() {
    let mut s = OperandStack::new(4);
    s.push_int(1).unwrap();
    s.push_float(2.0f32.to_bits()).unwrap();
    assert_eq!(s.pop_float(), Ok(2.0f32.to_bits()));
    s.push_slot(Slot::ReturnAddress(9)).unwrap();
    assert_eq!(s.pop_slot(), Ok(Slot::ReturnAddress(9)));
    assert_eq!(s.depth(), 1);
    assert_eq!(s.pop_int(), Ok(1));
}

#[test]
fn swap_twice_changes_nothing() {
    let mut s = OperandStack::new(4);
    s.push_int(1).unwrap();
    s.push_int(2).unwrap();
    s.swap().unwrap();
    s.swap().unwrap();
    assert_eq!(s.pop_int(), Ok(2));
    assert_eq!(s.pop_int(), Ok(1));
}

#[test]
fn pop2_undoes_dup2() {
    let mut s = OperandStack::new(6);
    s.push_long(77).unwrap();
    s.dup2().unwrap();
    s.pop2().unwrap();
    assert_eq!(s.depth(), 2);
    assert_eq!(s.pop_long(), Ok(77));
}

#[test]
fn dup2_x2_mixed_forms() {
    // A wide value on top of two narrow ones.
    let mut s = OperandStack::new(8);
    s.push_int(1).unwrap();
    s.push_int(2).unwrap();
    s.push_long(3).unwrap();
    s.dup2_x2().unwrap();
    assert_eq!(s.pop_long(), Ok(3));
    assert_eq!(s.pop_int(), Ok(2));
    assert_eq!(s.pop_int(), Ok(1));
    assert_eq!(s.pop_long(), Ok(3));
    // Two narrow values on top of a wide one.
    s.push_long(4).unwrap();
    s.push_int(5).unwrap();
    s.push_int(6).unwrap();
    s.dup2_x2().unwrap();
    assert_eq!(s.pop_int(), Ok(6));
    assert_eq!(s.pop_int(), Ok(5));
    assert_eq!(s.pop_long(), Ok(4));
    assert_eq!(s.pop_int(), Ok(6));
    assert_eq!(s.pop_int(), Ok(5));
    assert!(s.is_empty());
}

#[test]
fn stack_operations_report_underflow() {
    let mut s = OperandStack::new(4);
    assert_eq!(s.swap(), Err(FrameError::Underflow));
    assert_eq!(s.dup_x1(), Err(FrameError::Underflow));
    assert_eq!(s.dup2(), Err(FrameError::Underflow));
    assert_eq!(s.pop2(), Err(FrameError::Underflow));
    assert_eq!(s.pop_reference(), Err(FrameError::Underflow));
}

#[test]
fn new_frame_is_empty() {
    let f = Frame::new(3, 2);
    assert_eq!(f.locals.len(), 3);
    assert!(f.operands.is_empty());
    assert_eq!(f.locals.slot(2), Ok(&Slot::Top));
}
