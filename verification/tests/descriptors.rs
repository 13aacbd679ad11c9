use astatine::descriptors::{Descriptor, FieldDescriptor, FieldType, MethodDescriptor};
use internship::IStr;

#[test]
fn fields() {
    assert_eq!(
        FieldDescriptor::parse("[[[Lfoo bar net;"),
        Some(FieldDescriptor::new(FieldType::Reference(IStr::new("foo bar net")), 3))
    );
}

#[test]
fn methods() {
    assert_eq!(
        MethodDescriptor::parse("([B[[LFoo;I)[LNetwork;"),
        Some(MethodDescriptor::new(
            vec![
                FieldDescriptor::new(FieldType::Byte, 1),
                FieldDescriptor::new(FieldType::Reference(IStr::new("Foo")), 2),
                FieldDescriptor::new(FieldType::Int, 0)
            ],
            Some(FieldDescriptor::new(FieldType::Reference(IStr::new("Network")), 1))
        ))
    );
    assert_eq!(
        MethodDescriptor::parse("([B[[LFoo;I)V"),
        Some(MethodDescriptor::new(
            vec![
                FieldDescriptor::new(FieldType::Byte, 1),
                FieldDescriptor::new(FieldType::Reference(IStr::new("Foo")), 2),
                FieldDescriptor::new(FieldType::Int, 0)
            ],
            None
        ))
    );
}

#[test]
fn base_types_parse() {
    assert_eq!(FieldType::parse("B"), Some(FieldType::Byte));
    assert_eq!(FieldType::parse("D"), Some(FieldType::Double));
    assert_eq!(FieldType::parse("F"), Some(FieldType::Float));
    assert_eq!(FieldType::parse("I"), Some(FieldType::Int));
    assert_eq!(FieldType::parse("J"), Some(FieldType::Long));
    assert_eq!(FieldType::parse("S"), Some(FieldType::Short));
    assert_eq!(FieldType::parse("Z"), Some(FieldType::Boolean));
    assert_eq!(
        FieldType::parse("Ljava/lang/String;"),
        Some(FieldType::Reference(IStr::new("java/lang/String")))
    );
}

#[test]
fn char_descriptor_reads_as_byte() {
    // The grammar maps `C` to the byte type.
    assert_eq!(FieldType::parse("C"), Some(FieldType::Byte));
}

#[test]
fn invalid_field_descriptors_are_refused() {
    assert_eq!(FieldDescriptor::parse(""), None);
    assert_eq!(FieldDescriptor::parse("Q"), None);
    assert_eq!(FieldDescriptor::parse("[["), None);
    assert_eq!(FieldDescriptor::parse("Ljava/lang/String"), None);
    assert_eq!(FieldDescriptor::parse("V"), None);
}

#[test]
fn field_descriptor_parts() {
    let d = FieldDescriptor::parse("[[J").unwrap();
    assert_eq!(d.base(), &FieldType::Long);
    assert_eq!(d.array_dimensions(), 2);
    let copy = d.copy();
    assert_eq!(copy, d);
}

#[test]
fn method_descriptor_parts() {
    let d = MethodDescriptor::parse("(IJ)V").unwrap();
    assert_eq!(d.parameters().len(), 2);
    assert_eq!(d.parameters()[0], FieldDescriptor::new(FieldType::Int, 0));
    assert_eq!(d.parameters()[1], FieldDescriptor::new(FieldType::Long, 0));
    assert!(d.return_type().is_none());
    let e = MethodDescriptor::parse("()[Z").unwrap();
    assert_eq!(e.parameters().len(), 0);
    assert_eq!(e.return_type(), Some(&FieldDescriptor::new(FieldType::Boolean, 1)));
}

#[test]
fn invalid_method_descriptors_are_refused() {
    assert_eq!(MethodDescriptor::parse(""), None);
    assert_eq!(MethodDescriptor::parse("I)V"), None);
    assert_eq!(MethodDescriptor::parse("(I"), None);
    assert_eq!(MethodDescriptor::parse("(V)V"), None);
    assert_eq!(MethodDescriptor::parse("(I)"), None);
}

#[test]
fn descriptors_wrap_either_kind() {
    let f = Descriptor::from_field(FieldDescriptor::new(FieldType::Int, 0));
    assert!(matches!(f, Descriptor::Field(_)));
    let m = Descriptor::from_method(MethodDescriptor::new(vec![], None));
    assert!(matches!(m, Descriptor::Method(_)));
    assert_eq!(Descriptor::from(FieldDescriptor::new(FieldType::Long, 1)), Descriptor::Field(FieldDescriptor::new(FieldType::Long, 1)));
    assert_eq!(Descriptor::from(MethodDescriptor::new(vec![], None)), Descriptor::Method(MethodDescriptor::new(vec![], None)));
}

#[test]
fn base_types_are_descriptors_without_dimensions() {
    let d = FieldDescriptor::from(FieldType::Reference(IStr::new("java/lang/String")));
    assert_eq!(d.array_dimensions(), 0);
    assert_eq!(d, FieldDescriptor::parse("Ljava/lang/String;").unwrap());
}

#[test]
fn text_after_a_descriptor_is_ignored() {
    assert_eq!(FieldDescriptor::parse("II"), FieldDescriptor::parse("I"));
    assert_eq!(
        MethodDescriptor::parse("(I)Vjunk"),
        Some(MethodDescriptor::new(vec![FieldDescriptor::new(FieldType::Int, 0)], None))
    );
}
