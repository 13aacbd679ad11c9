use astatine::class::Class;
use astatine::descriptors::{FieldDescriptor, FieldType};

/// Builds class files for the tests.
struct Builder {
    bytes: Vec<u8>,
}

impl Builder {
    fn new() -> Self {
        Builder { bytes: Vec::new() }
    }
    fn u8(&mut self, v: u8) -> &mut Self {
        self.bytes.push(v);
        self
    }
    fn u16(&mut self, v: u16) -> &mut Self {
        self.bytes.extend_from_slice(&v.to_be_bytes());
        self
    }
    fn u32(&mut self, v: u32) -> &mut Self {
        self.bytes.extend_from_slice(&v.to_be_bytes());
        self
    }
    fn utf8(&mut self, s: &str) -> &mut Self {
        self.u8(1).u16(s.len() as u16);
        self.bytes.extend_from_slice(s.as_bytes());
        self
    }
    fn class(&mut self, name_index: u16) -> &mut Self {
        self.u8(7).u16(name_index)
    }
    fn integer(&mut self, v: i32) -> &mut Self {
        self.u8(3).u32(v as u32)
    }
}

/// The constant pool shared by the test classes:
///  1 "Test", 2 class 1, 3 "java/lang/Object", 4 class 3, 5 "<init>",
///  6 "()V", 7 "Code", 8 "value", 9 "I", 10 "add", 11 "(II)I",
///  12 "SourceFile", 13 "Test.java", 14 "ConstantValue", 15 int 42,
///  16 "pad".  A constant value may not be the last entry of the pool.
fn pool(b: &mut Builder) {
    b.u16(17);
    b.utf8("Test").class(1).utf8("java/lang/Object").class(3).utf8("<init>").utf8("()V").utf8("Code");
    b.utf8("value").utf8("I").utf8("add").utf8("(II)I").utf8("SourceFile").utf8("Test.java");
    b.utf8("ConstantValue").integer(42).utf8("pad");
}

fn code_attribute(b: &mut Builder, max_stack: u16, max_locals: u16, code: &[u8]) {
    b.u16(7).u32(12 + code.len() as u32).u16(max_stack).u16(max_locals).u32(code.len() as u32);
    b.bytes.extend_from_slice(code);
    b.u16(0).u16(0);
}

/// A public class `Test` with a constant field `value` (42), a constructor
/// and a static method `add` whose code is `add_code`.
fn test_class(flags: u16, add_code: &[u8]) -> Vec<u8> {
    let mut b = Builder::new();
    b.u32(0xCAFEBABE).u16(0).u16(52);
    pool(&mut b);
    b.u16(flags).u16(2).u16(4).u16(0);
    // fields
    b.u16(1).u16(0x0019).u16(8).u16(9).u16(1).u16(14).u32(2).u16(15);
    // methods
    b.u16(2);
    b.u16(0x0001).u16(5).u16(6).u16(1);
    code_attribute(&mut b, 1, 1, &[0xb1]);
    b.u16(0x0009).u16(10).u16(11).u16(1);
    code_attribute(&mut b, 2, 2, add_code);
    // attributes
    b.u16(1).u16(12).u32(2).u16(13);
    b.bytes
}

#[test]
fn parses_a_class_file() {
    let class = Class::parse(test_class(0x0021, &[0x1a, 0x1b, 0x60, 0xac]));
    assert_eq!(class.name(), "Test");
    assert_eq!(class.super_class(), Some("java/lang/Object"));
    assert_eq!(class.major_version(), 52);
    assert_eq!(class.minor_version(), 0);
    assert!(class.is_public());
    assert!(class.is_super());
    assert!(!class.is_interface());
    assert_eq!(class.interfaces().len(), 0);
    assert_eq!(class.field_count(), 1);
    assert_eq!(class.source_file_name(), Some("Test.java"));
    assert_eq!(class.constant_pool().len(), 16);
    assert!(class.constant_pool().has(15));
    assert!(!class.constant_pool().has(16));
}

#[test]
fn reads_fields_and_constants() {
    let class = Class::parse(test_class(0x0021, &[0xb1]));
    let field = &class.fields()[0];
    assert_eq!(field.name(), "value");
    assert_eq!(field.descriptor(), &FieldDescriptor::new(FieldType::Int, 0));
    assert!(field.is_static());
    assert!(field.is_final());
    assert!(field.is_public());
    assert_eq!(field.constant_int(), Some(42));
    assert_eq!(field.constant_long(), None);
}

#[test]
fn reads_methods_and_code() {
    let class = Class::try_parse(test_class(0x0021, &[0x1a, 0x1b, 0x60, 0xac])).unwrap();
    let methods = class.methods();
    assert_eq!(methods.len(), 2);
    assert_eq!(methods[0].name(), "<init>");
    assert!(methods[0].is_constructor());
    assert_eq!(methods[1].name(), "add");
    assert!(methods[1].is_static());
    assert!(!methods[1].is_constructor());
    let code = methods[1].code().expect("code");
    assert_eq!(code.code(), &[0x1a, 0x1b, 0x60, 0xac]);
    assert_eq!(code.max_stack(), 2);
    assert_eq!(code.max_locals(), 2);
    assert_eq!(methods[1].descriptor().parameters().len(), 2);
}

#[test]
fn refuses_a_bad_magic_number() {
    let mut bytes = test_class(0x0021, &[0xb1]);
    bytes[0] = 0xCB;
    assert!(Class::try_parse(bytes).is_none());
}

#[test]
fn refuses_truncated_and_padded_files() {
    let bytes = test_class(0x0021, &[0xb1]);
    for cut in [0usize, 3, 9, 40, bytes.len() - 1] {
        assert!(Class::try_parse(bytes[..cut].to_vec()).is_none(), "cut at {}", cut);
    }
    let mut padded = bytes.clone();
    padded.push(0);
    assert!(Class::try_parse(padded).is_none());
}

#[test]
fn refuses_illegal_class_modifiers() {
    // abstract and final together
    assert!(Class::try_parse(test_class(0x0421 | 0x0010, &[0xb1])).is_none());
    // an interface that is not abstract
    assert!(Class::try_parse(test_class(0x0201, &[0xb1])).is_none());
}

#[test]
fn refuses_empty_method_code() {
    // A method that is neither abstract nor native needs a code attribute
    // with at least one byte.
    assert!(Class::try_parse(test_class(0x0021, &[])).is_none());
}

#[test]
fn only_object_has_no_superclass() {
    let mut bytes = test_class(0x0021, &[0xb1]);
    // The super class index sits right after the flags and this class.
    let header = 10 + pool_len();
    assert_eq!(&bytes[header..header + 6], &[0x00, 0x21, 0x00, 0x02, 0x00, 0x04]);
    bytes[header + 4] = 0;
    bytes[header + 5] = 0;
    assert!(Class::try_parse(bytes).is_none());
}

fn pool_len() -> usize {
    let mut b = Builder::new();
    pool(&mut b);
    b.bytes.len() - 2
}

#[test]
fn a_constant_value_in_the_last_pool_entry_is_refused() {
    let mut bytes = test_class(0x0021, &[0xb1]);
    // Point the constant value at entry 16, the last one.
    let header = 10 + pool_len();
    let field = header + 8;
    assert_eq!(&bytes[field + 16..field + 18], &[0x00, 0x0f]);
    bytes[field + 17] = 0x10;
    assert!(Class::try_parse(bytes).is_none());
}
