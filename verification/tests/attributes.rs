use astatine::class::Class;
use astatine::descriptors::{FieldDescriptor, FieldType};

/// A constant pool under construction; each method returns the index of
/// the entry that it adds.
struct Pool {
    bytes: Vec<u8>,
    next: u16,
}

impl Pool {
    fn new() -> Self {
        Pool { bytes: Vec::new(), next: 1 }
    }
    fn add(&mut self, entry: &[u8]) -> u16 {
        self.bytes.extend_from_slice(entry);
        self.next += 1;
        self.next - 1
    }
    fn utf8(&mut self, s: &str) -> u16 {
        let mut e = vec![1];
        e.extend_from_slice(&(s.len() as u16).to_be_bytes());
        e.extend_from_slice(s.as_bytes());
        self.add(&e)
    }
    fn two(&mut self, tag: u8, a: u16, b: u16) -> u16 {
        let mut e = vec![tag];
        e.extend_from_slice(&a.to_be_bytes());
        e.extend_from_slice(&b.to_be_bytes());
        self.add(&e)
    }
    fn one(&mut self, tag: u8, a: u16) -> u16 {
        let mut e = vec![tag];
        e.extend_from_slice(&a.to_be_bytes());
        self.add(&e)
    }
    fn class(&mut self, name: &str) -> u16 {
        let n = self.utf8(name);
        self.one(7, n)
    }
}

fn u16s(values: &[u16]) -> Vec<u8> {
    values.iter().flat_map(|v| v.to_be_bytes()).collect()
}

fn attribute(name: u16, body: &[u8]) -> Vec<u8> {
    let mut a = name.to_be_bytes().to_vec();
    a.extend_from_slice(&(body.len() as u32).to_be_bytes());
    a.extend_from_slice(body);
    a
}

/// A class file: the pool (with a trailing entry so that every real entry
/// is inside the pool's range), flags, this class, superclass, the raw
/// field, method and attribute lists (each with its count).
fn class_file(mut pool: Pool, flags: u16, this: u16, super_class: u16, fields: &[u8], methods: &[u8], attributes: &[u8]) -> Vec<u8> {
    pool.utf8("end");
    let mut b = vec![0xCA, 0xFE, 0xBA, 0xBE, 0, 0, 0, 52];
    b.extend_from_slice(&pool.next.to_be_bytes());
    b.extend_from_slice(&pool.bytes);
    b.extend_from_slice(&u16s(&[flags, this, super_class, 0]));
    b.extend_from_slice(fields);
    b.extend_from_slice(methods);
    b.extend_from_slice(attributes);
    b
}

fn code_body(code: &[u8], attributes: &[Vec<u8>]) -> Vec<u8> {
    let mut body = u16s(&[4, 4]);
    body.extend_from_slice(&(code.len() as u32).to_be_bytes());
    body.extend_from_slice(code);
    body.extend_from_slice(&u16s(&[0, attributes.len() as u16]));
    for a in attributes {
        body.extend_from_slice(a);
    }
    body
}

#[test]
fn inner_classes_and_their_names() {
    let mut pool = Pool::new();
    let this = pool.class("Outer");
    let object = pool.class("java/lang/Object");
    let inner = pool.class("Outer$Inner");
    let inner_name = pool.utf8("Inner");
    let tag = pool.utf8("InnerClasses");
    let mut body = u16s(&[2]);
    body.extend_from_slice(&u16s(&[inner, this, inner_name, 0x0009]));
    body.extend_from_slice(&u16s(&[inner, 0, 0, 0x0010]));
    let mut attributes = u16s(&[1]);
    attributes.extend_from_slice(&attribute(tag, &body));
    let class = Class::try_parse(class_file(pool, 0x0021, this, object, &u16s(&[0]), &u16s(&[0]), &attributes)).unwrap();
    let inner_classes = class.inner_classes();
    assert_eq!(inner_classes.len(), 2);
    assert_eq!(inner_classes[0].index(), inner);
    assert_eq!(inner_classes[0].outer_index(), this);
    assert_eq!(inner_classes[0].name(), Some("Inner"));
    assert!(inner_classes[0].is_public());
    assert!(inner_classes[0].is_static());
    assert_eq!(inner_classes[1].name(), None);
    assert!(inner_classes[1].is_final());
}

#[test]
fn record_components_and_signatures() {
    let mut pool = Pool::new();
    let this = pool.class("Point");
    let record = pool.class("java/lang/Record");
    let x = pool.utf8("x");
    let int = pool.utf8("I");
    let tag = pool.utf8("Record");
    let signature = pool.utf8("Signature");
    let text = pool.utf8("TT;");
    let mut body = u16s(&[1, x, int, 1]);
    body.extend_from_slice(&attribute(signature, &u16s(&[text])));
    let mut attributes = u16s(&[1]);
    attributes.extend_from_slice(&attribute(tag, &body));
    let class = Class::try_parse(class_file(pool, 0x0031, this, record, &u16s(&[0]), &u16s(&[0]), &attributes)).unwrap();
    let components = class.record_components();
    assert_eq!(components.len(), 1);
    assert_eq!(components[0].name(), "x");
    assert_eq!(components[0].descriptor(), &FieldDescriptor::new(FieldType::Int, 0));
    assert_eq!(components[0].generic_signature(), Some("TT;"));
    assert_eq!(class.super_class(), Some("java/lang/Record"));
}

#[test]
fn duplicate_attributes_are_refused() {
    let mut pool = Pool::new();
    let this = pool.class("A");
    let object = pool.class("java/lang/Object");
    let tag = pool.utf8("SourceFile");
    let file = pool.utf8("A.java");
    let mut attributes = u16s(&[2]);
    attributes.extend_from_slice(&attribute(tag, &u16s(&[file])));
    attributes.extend_from_slice(&attribute(tag, &u16s(&[file])));
    assert!(Class::try_parse(class_file(pool, 0x0021, this, object, &u16s(&[0]), &u16s(&[0]), &attributes)).is_none());
}

#[test]
fn unknown_attributes_are_skipped() {
    let mut pool = Pool::new();
    let this = pool.class("A");
    let object = pool.class("java/lang/Object");
    let tag = pool.utf8("Custom");
    let mut attributes = u16s(&[1]);
    attributes.extend_from_slice(&attribute(tag, &[1, 2, 3, 4, 5]));
    let class = Class::try_parse(class_file(pool, 0x0021, this, object, &u16s(&[0]), &u16s(&[0]), &attributes)).unwrap();
    assert_eq!(class.source_file_name(), None);
}

/// A pool whose method reference names its member through string entries,
/// the only form the resolution of references reads.
fn bootstrap_class(kind: u8) -> Vec<u8> {
    let mut pool = Pool::new();
    let this = pool.class("A");
    let object = pool.class("java/lang/Object");
    let name_text = pool.utf8("make");
    let name = pool.one(8, name_text);
    let descriptor_text = pool.utf8("()V");
    let descriptor = pool.one(8, descriptor_text);
    let nat = pool.two(12, name, descriptor);
    let method_ref = pool.two(10, this, nat);
    let mut handle = vec![15, kind];
    handle.extend_from_slice(&method_ref.to_be_bytes());
    let handle = pool.add(&handle);
    let tag = pool.utf8("BootstrapMethods");
    let mut body = u16s(&[1, handle, 2, name, descriptor]);
    body.truncate(10);
    let mut attributes = u16s(&[1]);
    attributes.extend_from_slice(&attribute(tag, &body));
    class_file(pool, 0x0021, this, object, &u16s(&[0]), &u16s(&[0]), &attributes)
}

#[test]
fn bootstrap_methods_resolve_their_handles() {
    let class = Class::try_parse(bootstrap_class(6)).unwrap();
    let methods = class.bootstrap_methods();
    assert_eq!(methods.len(), 1);
    let handle = methods[0].handle();
    assert_eq!(handle.kind(), 6);
    assert!(handle.is_method_ref());
    assert!(!handle.is_field_ref());
    let method = handle.method_ref().unwrap();
    assert_eq!(method.class(), "A");
    assert_eq!(method.name(), "make");
    assert!(!method.is_interface());
    assert_eq!(method.descriptor().parameters().len(), 0);
    // The arguments name the two string entries, at indices 6 and 8.
    assert_eq!(methods[0].arguments(), &[6, 8]);
}

#[test]
fn bootstrap_handles_must_fit_their_kind() {
    // invokeinterface needs an interface method reference.
    assert!(Class::try_parse(bootstrap_class(9)).is_none());
    // newInvokeSpecial needs a constructor.
    assert!(Class::try_parse(bootstrap_class(8)).is_none());
    // field kinds need a field reference.
    assert!(Class::try_parse(bootstrap_class(1)).is_none());
    // not a kind at all
    assert!(Class::try_parse(bootstrap_class(10)).is_none());
}

#[test]
fn methods_with_exceptions_parameters_and_signatures() {
    let mut pool = Pool::new();
    let this = pool.class("A");
    let object = pool.class("java/lang/Object");
    let exception = pool.class("java/io/IOException");
    let run = pool.utf8("run");
    let descriptor = pool.utf8("(I)V");
    let code_tag = pool.utf8("Code");
    let exceptions_tag = pool.utf8("Exceptions");
    let parameters_tag = pool.utf8("MethodParameters");
    let signature_tag = pool.utf8("Signature");
    let deprecated_tag = pool.utf8("Deprecated");
    let count = pool.utf8("count");
    let generic = pool.utf8("<T:Ljava/lang/Object;>(I)V");
    let mut method = u16s(&[1, 0x0001, run, descriptor, 5]);
    method.extend_from_slice(&attribute(code_tag, &code_body(&[0xb1], &[])));
    method.extend_from_slice(&attribute(exceptions_tag, &u16s(&[1, exception])));
    method.extend_from_slice(&attribute(parameters_tag, &u16s(&[2, count, 0x0010, 0, 0x8000])));
    method.extend_from_slice(&attribute(signature_tag, &u16s(&[generic])));
    method.extend_from_slice(&attribute(deprecated_tag, &[]));
    let class = Class::try_parse(class_file(pool, 0x0021, this, object, &u16s(&[0]), &method, &u16s(&[0]))).unwrap();
    let m = &class.methods()[0];
    assert_eq!(m.checked_exception_indices(), &[exception]);
    let parameters = m.parameters();
    assert_eq!(parameters.len(), 2);
    assert_eq!(parameters[0].name(), Some("count"));
    assert!(parameters[0].is_final());
    assert_eq!(parameters[1].name(), None);
    assert!(parameters[1].is_mandated());
    assert_eq!(m.generic_signature(), Some("<T:Ljava/lang/Object;>(I)V"));
}

#[test]
fn static_initializers_must_be_static() {
    let build = |flags: u16| {
        let mut pool = Pool::new();
        let this = pool.class("A");
        let object = pool.class("java/lang/Object");
        let clinit = pool.utf8("<clinit>");
        let descriptor = pool.utf8("()V");
        let code_tag = pool.utf8("Code");
        let mut method = u16s(&[1, flags, clinit, descriptor, 1]);
        method.extend_from_slice(&attribute(code_tag, &code_body(&[0xb1], &[])));
        Class::try_parse(class_file(pool, 0x0021, this, object, &u16s(&[0]), &method, &u16s(&[0])))
    };
    assert!(build(0x0001).is_none());
    let class = build(0x0809).unwrap();
    let m = &class.methods()[0];
    // Only the static and strict flags are kept.
    assert_eq!(m.flags(), 0x0808);
    assert!(m.is_static());
    assert!(m.is_strict());
    assert!(!m.is_public());
    assert!(!m.is_static_initializer());
}

#[test]
fn abstract_methods_have_no_code() {
    let build = |with_code: bool| {
        let mut pool = Pool::new();
        let this = pool.class("A");
        let object = pool.class("java/lang/Object");
        let run = pool.utf8("run");
        let descriptor = pool.utf8("()V");
        let code_tag = pool.utf8("Code");
        let mut method = u16s(&[1, 0x0401, run, descriptor, if with_code { 1 } else { 0 }]);
        if with_code {
            method.extend_from_slice(&attribute(code_tag, &code_body(&[0xb1], &[])));
        }
        Class::try_parse(class_file(pool, 0x0421, this, object, &u16s(&[0]), &method, &u16s(&[0])))
    };
    assert!(build(true).is_none());
    let class = build(false).unwrap();
    assert!(class.is_abstract());
    assert!(class.methods()[0].code().is_none());
}

#[test]
fn interfaces_cannot_have_constructors() {
    let mut pool = Pool::new();
    let this = pool.class("I");
    let object = pool.class("java/lang/Object");
    let init = pool.utf8("<init>");
    let descriptor = pool.utf8("()V");
    let code_tag = pool.utf8("Code");
    let mut method = u16s(&[1, 0x0001, init, descriptor, 1]);
    method.extend_from_slice(&attribute(code_tag, &code_body(&[0xb1], &[])));
    assert!(Class::try_parse(class_file(pool, 0x0601, this, object, &u16s(&[0]), &method, &u16s(&[0]))).is_none());
}

#[test]
fn interface_fields_are_public_static_final() {
    let build = |flags: u16| {
        let mut pool = Pool::new();
        let this = pool.class("I");
        let object = pool.class("java/lang/Object");
        let name = pool.utf8("X");
        let descriptor = pool.utf8("J");
        let fields = u16s(&[1, flags, name, descriptor, 0]);
        Class::try_parse(class_file(pool, 0x0601, this, object, &fields, &u16s(&[0]), &u16s(&[0])))
    };
    assert!(build(0x0009).is_none());
    let class = build(0x0019).unwrap();
    assert!(class.is_interface());
    assert_eq!(class.fields()[0].descriptor(), &FieldDescriptor::new(FieldType::Long, 0));
}

#[test]
fn code_attributes_are_read() {
    let mut pool = Pool::new();
    let this = pool.class("A");
    let object = pool.class("java/lang/Object");
    let run = pool.utf8("run");
    let descriptor = pool.utf8("()V");
    let code_tag = pool.utf8("Code");
    let lines = pool.utf8("LineNumberTable");
    let locals = pool.utf8("LocalVariableTable");
    let frames = pool.utf8("StackMapTable");
    let name = pool.utf8("i");
    let int = pool.utf8("I");
    let line_table = attribute(lines, &u16s(&[1, 0, 7]));
    let local_table = attribute(locals, &u16s(&[1, 0, 2, name, int, 0]));
    // one same-locals-one-stack frame (type 64) holding an int (item 1)
    let frame_table = attribute(frames, &[0, 1, 64, 1]);
    let mut method = u16s(&[1, 0x0009, run, descriptor, 1]);
    method.extend_from_slice(&attribute(code_tag, &code_body(&[0x03, 0x57, 0xb1], &[line_table, local_table, frame_table])));
    let class = Class::try_parse(class_file(pool, 0x0021, this, object, &u16s(&[0]), &method, &u16s(&[0]))).unwrap();
    let code = class.methods()[0].code().unwrap();
    let variables = code.local_variables().unwrap();
    let variable = variables.get(0).unwrap();
    assert_eq!(variable.name(), "i");
    assert_eq!(variable.start_pc(), 0);
    assert_eq!(variable.length(), 2);
    let table = code.stack_map_table().unwrap();
    let frame = table.get(0).unwrap();
    assert_eq!(frame.frame_type(), 64);
    assert_eq!(frame.offset_delta(), 0);
    assert_eq!(frame.get_stack(0).unwrap().item(), 1);
    assert!(code.local_variable_types().is_none());
}

#[test]
fn dynamic_constants_need_bootstrap_methods() {
    let mut pool = Pool::new();
    let this = pool.class("A");
    let object = pool.class("java/lang/Object");
    let name = pool.utf8("x");
    let int = pool.utf8("I");
    let nat = pool.two(12, name, int);
    pool.two(18, 0, nat);
    assert!(Class::try_parse(class_file(pool, 0x0021, this, object, &u16s(&[0]), &u16s(&[0]), &u16s(&[0]))).is_none());
}
