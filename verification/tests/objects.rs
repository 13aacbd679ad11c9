use astatine::heap::HeapSpace;
use astatine::lateinit::LateInit;
use astatine::object::{HeapObject, InstanceObject, ReferenceArrayObject, ReferenceHeapObject, TypeArrayObject};
use astatine::reference::Reference;
use astatine::vm_types::ArrayType;
use internship::IStr;

#[test]
fn references_compare_by_object() {
    assert!(Reference::Null.equals(Reference::Null));
    assert!(Reference::Value(3).equals(Reference::Value(3)));
    assert!(!Reference::Value(3).equals(Reference::Value(4)));
    assert!(!Reference::Value(0).equals(Reference::Null));
    assert!(!Reference::Null.equals(Reference::Value(0)));
}

#[test]
fn reference_accessors() {
    assert!(Reference::Null.is_null());
    assert!(!Reference::Null.is_not_null());
    assert!(Reference::Value(7).is_not_null());
    assert_eq!(Reference::Value(7).unwrap(), 7);
    assert_eq!(Reference::Value(9).expect("present"), 9);
    assert_eq!(Reference::from(Some(5usize)), Reference::Value(5));
    assert_eq!(Reference::from(None::<usize>), Reference::Null);
}

#[test]
fn array_type_codes() {
    assert_eq!(ArrayType::from(4), Some(ArrayType::Boolean));
    assert_eq!(ArrayType::from(5), Some(ArrayType::Char));
    assert_eq!(ArrayType::from(6), Some(ArrayType::Float));
    assert_eq!(ArrayType::from(7), Some(ArrayType::Double));
    assert_eq!(ArrayType::from(8), Some(ArrayType::Byte));
    assert_eq!(ArrayType::from(9), Some(ArrayType::Short));
    assert_eq!(ArrayType::from(10), Some(ArrayType::Int));
    assert_eq!(ArrayType::from(11), Some(ArrayType::Long));
    assert_eq!(ArrayType::from(3), None);
    assert_eq!(ArrayType::from(12), None);
    for code in 4u8..=11 {
        assert_eq!(ArrayType::from_unchecked(code).code(), code);
    }
}

#[test]
fn instance_slots_insert_and_read_back() {
    let mut o = InstanceObject::new(2, IStr::new("Foo"), 3);
    assert_eq!(o.get(0), 0);
    o.put_int(0, -5);
    assert_eq!(o.get_int(0), -5);
    o.put_int(0, 7);
    // Putting inserts: the earlier value moves up by one.
    assert_eq!(o.get_int(0), 7);
    assert_eq!(o.get_int(1), -5);
    o.put_bool(0, true);
    assert!(o.get_bool(0));
    o.put_byte(0, -1);
    assert_eq!(o.get_byte(0), -1);
    assert_eq!(o.get(0), 0xffff_ffff);
    o.put_short(0, -2);
    assert_eq!(o.get_short(0), -2);
    o.put_char(0, 'x');
    assert_eq!(o.get_char(0), 'x');
    assert_eq!(o.get(100), 0);
    assert_eq!(o.offset(), 2);
    assert_eq!(o.class(), "Foo");
}

#[test]
fn longs_take_two_slots() {
    let mut a = TypeArrayObject::new(0, ArrayType::Long, 4);
    a.put_long(0, 0x1234_5678_9abc_def0);
    assert_eq!(a.get(0), 0x1234_5678);
    assert_eq!(a.get(1), 0x9abc_def0);
    assert_eq!(a.get_long(0), 0x1234_5678_9abc_def0);
    a.put_long(0, -1);
    assert_eq!(a.get_long(0), -1);
    assert_eq!(a.len(), 4);
    assert_eq!(a.array_type(), ArrayType::Long);
}

#[test]
fn reference_arrays_hold_heap_indices() {
    let mut a = ReferenceArrayObject::new(1, IStr::new("Foo"), IStr::new("Foo"), 2);
    assert_eq!(a.get(0), None);
    a.set(0, 4);
    a.set(0, 9);
    assert_eq!(a.get(0), Some(9));
    assert_eq!(a.get(1), Some(4));
    assert_eq!(a.len(), 2);
    assert_eq!(a.element_class(), "Foo");
    assert_eq!(a.class(), "Foo");
    assert_eq!(a.offset(), 1);
}

#[test]
fn heap_lookups_by_kind() {
    let mut heap = HeapSpace::new(16);
    assert_eq!(heap.len(), 0);
    heap.push_ref(InstanceObject::new(0, IStr::new("Foo"), 0));
    heap.push_type_array(TypeArrayObject::new(1, ArrayType::Int, 3));
    heap.push_ref_array(ReferenceArrayObject::new(2, IStr::new("Foo"), IStr::new("Foo"), 1));
    assert_eq!(heap.len(), 3);
    assert_eq!(heap.get_ref(0), Reference::Value(0));
    assert_eq!(heap.get_ref(1), Reference::Null);
    assert_eq!(heap.get_type_array(1), Reference::Value(1));
    assert_eq!(heap.get_type_array(0), Reference::Null);
    assert_eq!(heap.get_ref_array(2), Reference::Value(2));
    assert_eq!(heap.get_ref_array(3), Reference::Null);
    heap.type_array_put(1, 0, 42);
    assert_eq!(heap.type_array(1).get_int(0), 42);
    heap.ref_array_set(2, 0, 0);
    assert_eq!(heap.ref_array(2).get(0), Some(0));
}

#[test]
fn late_init_is_set_once() {
    let mut value: LateInit<u32> = LateInit::new();
    assert!(!value.is_initialized());
    value.init(12);
    assert!(value.is_initialized());
    assert_eq!(*value.get(), 12);
}
