use astatine::access_flags::{
    check_requires_flags, class_modifiers_legal, has_illegal_visibility, method_flags_legal,
    requires_flags_legal, verify_method_flags, verify_modifiers, AccessFlags,
};
use astatine::constants::is_valid_version;
use astatine::primitive_ops::{
    jvm_cmp_long, jvm_int_add, jvm_int_div, jvm_int_inc, jvm_int_neg, jvm_int_rem, jvm_int_shl,
    jvm_int_sub, jvm_int_to_byte, jvm_int_to_char, jvm_int_to_long, jvm_int_ushr, jvm_load_int,
    jvm_long_add, jvm_long_to_int, jvm_store_int,
};
use astatine::reader::{u16_to_u8_array, BufferExtras};
use astatine::stack_frame::{parts_to_long, StackFrame};
use astatine::version::ClassFileVersion;
use bytes::Bytes;
use internship::IStr;

fn frame_with(values: &[i32]) -> StackFrame {
    let mut frame = StackFrame::new(8, 8);
    for v in values {
        frame.push_int_op(*v);
    }
    frame
}

#[test]
fn pushed_slots_pop_back_in_reverse() {
    let mut frame = StackFrame::new(4, 0);
    frame.push_op(1);
    frame.push_op(2);
    assert_eq!(frame.stack_len(), 2);
    assert_eq!(frame.peek_op(), 2);
    assert_eq!(frame.pop_op(), 2);
    assert_eq!(frame.pop_op(), 1);
    assert_eq!(frame.stack_len(), 0);
    frame.push_int_op(-7);
    assert_eq!(frame.pop_int_op(), -7);
    frame.push_bool_op(true);
    assert!(frame.pop_bool_op());
    frame.push_char_op('x');
    assert_eq!(frame.pop_char_op(), 'x');
    frame.push_short_op(-300);
    assert_eq!(frame.pop_short_op(), -300);
    frame.push_byte_op(-3);
    assert_eq!(frame.pop_byte_op(), -3);
}

#[test]
fn longs_pop_with_their_halves_exchanged() {
    assert_eq!(parts_to_long(1, 2), 0x0000_0001_0000_0002);
    let mut frame = StackFrame::new(4, 0);
    frame.push_long_op(0x0000_0001_0000_0002);
    assert_eq!(frame.get_op(0), 2);
    assert_eq!(frame.get_op(1), 1);
    assert_eq!(frame.pop_long_op(), 0x0000_0002_0000_0001);
    // A long whose halves are equal comes back unchanged.
    frame.push_long_op(0x0000_0005_0000_0005);
    assert_eq!(frame.pop_long_op(), 0x0000_0005_0000_0005);
    assert_eq!(frame.stack_len(), 0);
}

#[test]
fn locals_are_inserted_and_read_back() {
    let mut frame = StackFrame::new(0, 4);
    frame.set_local_int(0, 1);
    frame.set_local_int(0, 2);
    assert_eq!(frame.locals_len(), 2);
    assert_eq!(frame.get_local_int(0), 2);
    assert_eq!(frame.get_local_int(1), 1);
    frame.set_local_long(0, 0x0000_0003_0000_0004);
    // The lower half lands in front of the upper half.
    assert_eq!(frame.get_local(0), 4);
    assert_eq!(frame.get_local(1), 3);
    assert_eq!(frame.get_local_long(0), 0x0000_0004_0000_0003);
    assert_eq!(frame.get_local_return_address(3), Some(1));
    assert_eq!(frame.get_local_return_address(4), None);
    frame.set_local_bool(0, true);
    assert!(frame.get_local_bool(0));
    frame.set_local_char(0, 'q');
    assert_eq!(frame.get_local_char(0), 'q');
    frame.set_local_short(0, -9);
    assert_eq!(frame.get_local_short(0), -9);
    frame.set_local_byte(0, -2);
    assert_eq!(frame.get_local_byte(0), -2);
}

#[test]
fn set_op_inserts_below_the_slot() {
    let mut frame = StackFrame::new(4, 0);
    frame.push_op(1);
    frame.push_op(2);
    frame.push_op(3);
    frame.set_op(0, 9);
    assert_eq!(frame.stack_len(), 4);
    assert_eq!(frame.get_op(0), 3);
    assert_eq!(frame.get_op(1), 9);
    assert_eq!(frame.get_op(2), 2);
    frame.push_null_op();
    assert_eq!(frame.pop_op(), 0);
}

#[test]
fn int_operations_take_the_top_first() {
    let mut frame = frame_with(&[7, 3]);
    jvm_int_add(&mut frame);
    assert_eq!(frame.pop_int_op(), 10);
    let mut frame = frame_with(&[7, 3]);
    jvm_int_sub(&mut frame);
    assert_eq!(frame.pop_int_op(), -4);
    let mut frame = frame_with(&[2, 11]);
    jvm_int_div(&mut frame);
    assert_eq!(frame.pop_int_op(), 5);
    let mut frame = frame_with(&[3, -7]);
    jvm_int_rem(&mut frame);
    assert_eq!(frame.pop_int_op(), -1);
    let mut frame = frame_with(&[4, 3]);
    jvm_int_shl(&mut frame);
    assert_eq!(frame.pop_int_op(), 48);
    let mut frame = frame_with(&[2, -8]);
    jvm_int_ushr(&mut frame);
    assert_eq!(frame.pop_int_op(), 0x3FFF_FFFE);
    let mut frame = frame_with(&[41]);
    jvm_int_inc(&mut frame);
    assert_eq!(frame.pop_int_op(), 42);
    let mut frame = frame_with(&[5]);
    jvm_int_neg(&mut frame);
    assert_eq!(frame.pop_int_op(), -5);
}

#[test]
fn int_conversions() {
    let mut frame = frame_with(&[300]);
    jvm_int_to_byte(&mut frame);
    assert_eq!(frame.pop_int_op(), 44);
    let mut frame = frame_with(&[65]);
    jvm_int_to_char(&mut frame);
    assert_eq!(frame.pop_char_op(), 'A');
    let mut frame = frame_with(&[-2]);
    jvm_int_to_long(&mut frame);
    assert_eq!(frame.stack_len(), 2);
    // Both halves of -2 are not equal, so the long comes back exchanged.
    assert_eq!(frame.pop_long_op(), parts_to_long(0xFFFF_FFFE, 0xFFFF_FFFF));
}

#[test]
fn long_operations() {
    let mut frame = StackFrame::new(8, 0);
    frame.push_long_op(0x0000_0002_0000_0002);
    frame.push_long_op(0x0000_0001_0000_0001);
    jvm_long_add(&mut frame);
    assert_eq!(frame.pop_long_op(), 0x0000_0003_0000_0003);
    let mut frame = StackFrame::new(8, 0);
    frame.push_long_op(0x0000_0007_0000_0007);
    jvm_long_to_int(&mut frame);
    assert_eq!(frame.pop_int_op(), 7);
}

#[test]
fn long_comparison() {
    let mut frame = StackFrame::new(8, 0);
    frame.push_long_op(0x0000_0005_0000_0005);
    frame.push_long_op(0x0000_0003_0000_0003);
    jvm_cmp_long(&mut frame);
    assert_eq!(frame.pop_int_op(), -1);
    let mut frame = StackFrame::new(8, 0);
    frame.push_long_op(0x0000_0003_0000_0003);
    frame.push_long_op(0x0000_0005_0000_0005);
    jvm_cmp_long(&mut frame);
    assert_eq!(frame.pop_int_op(), 1);
    let mut frame = StackFrame::new(8, 0);
    frame.push_long_op(4);
    frame.push_long_op(4);
    jvm_cmp_long(&mut frame);
    assert_eq!(frame.pop_int_op(), 0);
}

#[test]
fn loads_and_stores_move_between_locals_and_stack() {
    let mut frame = frame_with(&[12]);
    jvm_store_int(&mut frame, 0);
    assert_eq!(frame.stack_len(), 0);
    assert_eq!(frame.get_local_int(0), 12);
    jvm_load_int(&mut frame, 0);
    assert_eq!(frame.pop_int_op(), 12);
    assert_eq!(frame.locals_len(), 1);
}

#[test]
fn class_modifiers() {
    assert!(class_modifiers_legal(52, 0x0021));
    // Legal modifiers pass the check that accepts them.
    verify_modifiers(52, 0x0021);
    // abstract and final together
    assert!(!class_modifiers_legal(52, 0x0411));
    // an interface that is not abstract
    assert!(!class_modifiers_legal(52, 0x0200));
    // an interface marked super, from Java 5 on
    assert!(!class_modifiers_legal(52, 0x0620));
    assert!(class_modifiers_legal(48, 0x0620));
    // an annotation that is not an interface
    assert!(!class_modifiers_legal(52, 0x2001));
    // a module
    assert!(!class_modifiers_legal(53, 0x8000));
}

#[test]
fn visibility_and_method_modifiers() {
    assert!(has_illegal_visibility(0x0003));
    assert!(has_illegal_visibility(0x0006));
    assert!(!has_illegal_visibility(0x0001));
    let class = AccessFlags::new(0x0021);
    let interface = AccessFlags::new(0x0601);
    let run = IStr::new("run");
    let init = IStr::new("<init>");
    assert!(method_flags_legal(52, class, 0x0009, &run));
    verify_method_flags(52, class, 0x0009, &run);
    assert!(!method_flags_legal(52, class, 0x0003, &run));
    // constructors cannot be static
    assert!(!method_flags_legal(52, class, 0x0009, &init));
    assert!(method_flags_legal(52, class, 0x0001, &init));
    // abstract methods cannot be final
    assert!(!method_flags_legal(52, class, 0x0411, &run));
    // interface methods from Java 8 on: public or private, not both
    assert!(method_flags_legal(52, interface, 0x0401, &run));
    assert!(!method_flags_legal(52, interface, 0x0000, &run));
    // before Java 8 they must be public and abstract
    assert!(!method_flags_legal(50, interface, 0x0001, &run));
    assert!(method_flags_legal(50, interface, 0x0401, &run));
}

#[test]
fn module_requirement_flags() {
    let base = IStr::new("java.base");
    let other = IStr::new("com.example");
    assert!(requires_flags_legal(&base, 54, 0x0020));
    check_requires_flags(&base, 54, 0x0020);
    assert!(requires_flags_legal(&other, 53, 0x0040));
    assert!(!requires_flags_legal(&other, 54, 0x0020));
    assert!(!requires_flags_legal(&other, 54, 0x0040));
    assert!(requires_flags_legal(&other, 54, 0x8000));
}

#[test]
fn access_flag_queries() {
    let flags = AccessFlags::new(0x0619);
    assert_eq!(flags.value(), 0x0619);
    assert!(flags.is_public());
    assert!(flags.is_static());
    assert!(flags.is_final());
    assert!(flags.is_interface());
    assert!(flags.is_abstract());
    assert!(!flags.is_private());
    assert!(!flags.is_synthetic());
    assert_eq!(AccessFlags::from(0x0020u16).value(), 0x0020);
    assert!(AccessFlags::from(0x0020u16).is_super());
    assert_eq!(AccessFlags::default().value(), 0);
}

#[test]
fn supported_versions() {
    assert!(is_valid_version(45, 3));
    assert!(is_valid_version(52, 0));
    assert!(is_valid_version(61, 0));
    assert!(is_valid_version(56, 65535));
    assert!(!is_valid_version(44, 0));
    assert!(!is_valid_version(62, 0));
    assert!(!is_valid_version(56, 1));
    assert_eq!(ClassFileVersion::from(45, 3), ClassFileVersion::new(45, 3));
    assert_eq!(ClassFileVersion::from(52, 0).major(), 52);
    assert_eq!(ClassFileVersion::minimum(), ClassFileVersion::release(45));
    assert_eq!(ClassFileVersion::latest().major(), 61);
    assert_eq!(ClassFileVersion::latest().minor(), 0);
}

#[test]
fn buffers_give_arrays() {
    assert_eq!(u16_to_u8_array(0x1234), [0x12, 0x34]);
    let mut buf = Bytes::from(vec![0, 2, 0, 1, 0, 2, 9]);
    assert_eq!(buf.get_u16_array(), Some(vec![1, 2]));
    assert_eq!(buf.to_vec(), vec![9]);
    let mut buf = Bytes::from(vec![0, 3, 0, 1]);
    assert_eq!(buf.get_u16_array(), None);
    let mut buf = Bytes::from(vec![1, 2, 3]);
    assert_eq!(buf.get_u8_array(5), None);
    assert_eq!(buf.get_u8_array(2), Some(vec![1, 2]));
    assert_eq!(buf.to_vec(), vec![3]);
}
