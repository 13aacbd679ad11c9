use astatine::class::Class;
use astatine::class_loader::{ClassLoader, LoadResult};
use astatine::code::CodeBlock;
use astatine::heap::HeapSpace;
use astatine::instructions::CodeParser;
use astatine::interpreter::{Interpreter, MethodResult, Step};
use astatine::reference::Reference;

fn push_u16(b: &mut Vec<u8>, v: u16) {
    b.extend_from_slice(&v.to_be_bytes());
}

fn push_u32(b: &mut Vec<u8>, v: u32) {
    b.extend_from_slice(&v.to_be_bytes());
}

fn push_utf8(b: &mut Vec<u8>, s: &str) {
    b.push(1);
    push_u16(b, s.len() as u16);
    b.extend_from_slice(s.as_bytes());
}

/// `java/lang/Object`: no superclass, no members.
fn object_class() -> Vec<u8> {
    let mut b = Vec::new();
    push_u32(&mut b, 0xCAFEBABE);
    push_u16(&mut b, 0);
    push_u16(&mut b, 52);
    push_u16(&mut b, 3);
    push_utf8(&mut b, "java/lang/Object");
    b.push(7);
    push_u16(&mut b, 1);
    for v in [0x0021u16, 2, 0, 0, 0, 0, 0] {
        push_u16(&mut b, v);
    }
    b
}

/// A class `Test` extending `java/lang/Object` with one static method
/// `run` whose code is `code` and whose exception table is `handlers`
/// (start, end, handler, catch type index).  Pool: 1 "Test", 2 class 1,
/// 3 "java/lang/Object", 4 class 3, 5 "run", 6 "()V", 7 "Code".
fn test_class(code: &[u8], handlers: &[(u16, u16, u16, u16)]) -> Vec<u8> {
    let mut b = Vec::new();
    push_u32(&mut b, 0xCAFEBABE);
    push_u16(&mut b, 0);
    push_u16(&mut b, 52);
    push_u16(&mut b, 8);
    push_utf8(&mut b, "Test");
    b.push(7);
    push_u16(&mut b, 1);
    push_utf8(&mut b, "java/lang/Object");
    b.push(7);
    push_u16(&mut b, 3);
    push_utf8(&mut b, "run");
    push_utf8(&mut b, "()V");
    push_utf8(&mut b, "Code");
    for v in [0x0021u16, 2, 4, 0, 0, 1, 0x0009, 5, 6, 1, 7] {
        push_u16(&mut b, v);
    }
    push_u32(&mut b, 12 + code.len() as u32 + 8 * handlers.len() as u32);
    push_u16(&mut b, 8);
    push_u16(&mut b, 8);
    push_u32(&mut b, code.len() as u32);
    b.extend_from_slice(code);
    push_u16(&mut b, handlers.len() as u16);
    for (start, end, handler, catch_type) in handlers {
        for v in [*start, *end, *handler, *catch_type] {
            push_u16(&mut b, v);
        }
    }
    push_u16(&mut b, 0);
    push_u16(&mut b, 0);
    b
}

fn method_code(class: &Class) -> &CodeBlock {
    class.methods()[0].code().expect("code")
}

/// Runs the method `run` of `class` until it stops; the steps taken and the
/// last outcome.
fn run(class: &Class, loader: &ClassLoader, heap: &mut HeapSpace, parameters: &[u32]) -> (usize, Step) {
    let code = method_code(class);
    let mut frame = Interpreter::start(code, parameters);
    let mut parser = CodeParser::new(code.code());
    let mut steps = 0;
    loop {
        steps += 1;
        let step = Interpreter::try_step(&mut frame, &mut parser, heap, class, loader, code);
        match step {
            Step::Continue => continue,
            other => return (steps, other),
        }
    }
}

fn loaded(code: &[u8], handlers: &[(u16, u16, u16, u16)]) -> (ClassLoader, usize) {
    let mut loader = ClassLoader::new();
    assert!(matches!(loader.load_class("java/lang/Object", object_class()), LoadResult::Loaded(0)));
    match loader.load_class("Test", test_class(code, handlers)) {
        LoadResult::Loaded(i) => (loader, i),
        other => panic!("{:?}", other),
    }
}

#[test]
fn adds_two_pushed_bytes() {
    let (loader, i) = loaded(&[0x10, 5, 0x10, 7, 0x60, 0xac], &[]);
    let mut heap = HeapSpace::new(16);
    let (steps, result) = run(loader.class_at(i), &loader, &mut heap, &[]);
    assert_eq!(steps, 4);
    assert!(matches!(result, Step::Return(MethodResult::Integer(12))));
}

#[test]
fn parameters_go_on_the_operand_stack() {
    // The parameters are pushed in order: 9 then 4, so isub gives 4 - 9.
    let (loader, i) = loaded(&[0x64, 0xac], &[]);
    let mut heap = HeapSpace::new(16);
    let (_, result) = run(loader.class_at(i), &loader, &mut heap, &[9, 4]);
    assert!(matches!(result, Step::Return(MethodResult::Integer(-5))));
}

#[test]
fn dividing_by_zero_faults() {
    let (loader, i) = loaded(&[0x03, 0x04, 0x6c, 0xac], &[]);
    let mut heap = HeapSpace::new(16);
    let (_, result) = run(loader.class_at(i), &loader, &mut heap, &[]);
    assert!(matches!(result, Step::Fault));
}

#[test]
fn long_arithmetic() {
    // lconst_1, lconst_1, ladd, lreturn
    let (loader, i) = loaded(&[0x0a, 0x0a, 0x61, 0xad], &[]);
    let mut heap = HeapSpace::new(16);
    let (_, result) = run(loader.class_at(i), &loader, &mut heap, &[]);
    assert!(matches!(result, Step::Return(MethodResult::Long(2))));
}

#[test]
fn float_instructions_are_handed_back() {
    let (loader, i) = loaded(&[0x0c, 0xae], &[]);
    let mut heap = HeapSpace::new(16);
    let (steps, result) = run(loader.class_at(i), &loader, &mut heap, &[]);
    assert_eq!(steps, 1);
    assert!(matches!(result, Step::FloatOp(0x0c)));
}

#[test]
fn goto_lands_after_its_offset_bytes() {
    // goto +1 skips the byte after the two offset bytes.
    let (loader, i) = loaded(&[0xa7, 0x00, 0x01, 0x00, 0x04, 0xac], &[]);
    let mut heap = HeapSpace::new(16);
    let (steps, result) = run(loader.class_at(i), &loader, &mut heap, &[]);
    assert_eq!(steps, 3);
    assert!(matches!(result, Step::Return(MethodResult::Integer(1))));
}

#[test]
fn conditional_branches() {
    // iconst_0, ifeq +1, (skipped) iconst_5, iconst_2, ireturn
    let (loader, i) = loaded(&[0x03, 0x99, 0x00, 0x01, 0x08, 0x05, 0xac], &[]);
    let mut heap = HeapSpace::new(16);
    let (_, result) = run(loader.class_at(i), &loader, &mut heap, &[]);
    assert!(matches!(result, Step::Return(MethodResult::Integer(2))));
}

#[test]
fn unknown_opcodes_fault() {
    let (loader, i) = loaded(&[0xb8, 0x00, 0x01], &[]);
    let mut heap = HeapSpace::new(16);
    let (_, result) = run(loader.class_at(i), &loader, &mut heap, &[]);
    assert!(matches!(result, Step::Fault));
}

#[test]
fn running_off_the_end_faults() {
    let (loader, i) = loaded(&[0x00], &[]);
    let mut heap = HeapSpace::new(16);
    let (steps, result) = run(loader.class_at(i), &loader, &mut heap, &[]);
    assert_eq!(steps, 2);
    assert!(matches!(result, Step::Fault));
}

#[test]
fn new_allocates_an_instance() {
    // new #2 (Test), areturn: the new object's slot is its heap index, 0,
    // which reads as null.
    let (loader, i) = loaded(&[0xbb, 0x00, 0x02, 0xb0], &[]);
    let mut heap = HeapSpace::new(16);
    let (_, result) = run(loader.class_at(i), &loader, &mut heap, &[]);
    assert!(matches!(result, Step::Return(MethodResult::Reference(Reference::Null))));
    assert_eq!(heap.len(), 1);
    assert_eq!(heap.get_ref(0), Reference::Value(0));
}

#[test]
fn new_asks_for_classes_that_are_not_loaded() {
    let mut loader = ClassLoader::new();
    let class = Class::try_parse(test_class(&[0xbb, 0x00, 0x02, 0xb0], &[])).unwrap();
    let code = method_code(&class);
    let mut frame = Interpreter::start(code, &[]);
    let mut parser = CodeParser::new(code.code());
    let mut heap = HeapSpace::new(16);
    let step = Interpreter::step(&mut frame, &mut parser, &mut heap, &class, &loader, code);
    match step {
        Step::LoadClass(name) => assert_eq!(name.as_str(), "Test"),
        other => panic!("{:?}", other),
    }
    assert_eq!(parser.position_exec(), 0);
    assert_eq!(heap.len(), 0);
    // Loading Test first needs its superclass.
    match loader.load_class("Test", test_class(&[0xbb, 0x00, 0x02, 0xb0], &[])) {
        LoadResult::Missing(name) => assert_eq!(name.as_str(), "java/lang/Object"),
        other => panic!("{:?}", other),
    }
    assert!(matches!(loader.load_class("java/lang/Object", object_class()), LoadResult::Loaded(0)));
    assert!(matches!(
        loader.load_class("Test", test_class(&[0xbb, 0x00, 0x02, 0xb0], &[])),
        LoadResult::Loaded(1)
    ));
    let step = Interpreter::step(&mut frame, &mut parser, &mut heap, &class, &loader, code);
    assert!(matches!(step, Step::Continue));
    assert_eq!(heap.len(), 1);
}

#[test]
fn primitive_arrays_store_and_load() {
    // Three int arrays; a reference slot `k` names the allocation at
    // `k + 1`, so slot 1 names the third array.
    let code = [
        0x05, 0xbc, 10, 0x57, // iconst_2, newarray int, pop
        0x05, 0xbc, 10, 0x57,
        0x05, 0xbc, 10, 0x57,
        0x10, 42, 0x03, 0x04, 0x4f, // bipush 42, iconst_0, iconst_1, iastore
        0x03, 0x04, 0x2e, // iconst_0, iconst_1, iaload
        0xac, // ireturn
    ];
    let (loader, i) = loaded(&code, &[]);
    let mut heap = HeapSpace::new(16);
    let (_, result) = run(loader.class_at(i), &loader, &mut heap, &[]);
    assert!(matches!(result, Step::Return(MethodResult::Integer(42))));
    assert_eq!(heap.len(), 3);
    assert_eq!(heap.type_array(2).get_int(0), 42);
    assert_eq!(heap.type_array(1).get(0), 0);
}

#[test]
fn array_type_mismatch_faults() {
    // A byte array read with iaload.
    let code = [
        0x05, 0xbc, 8, 0x57, 0x05, 0xbc, 8, 0x57, 0x05, 0xbc, 8, 0x57, 0x03, 0x04, 0x2e, 0xac,
    ];
    let (loader, i) = loaded(&code, &[]);
    let mut heap = HeapSpace::new(16);
    let (_, result) = run(loader.class_at(i), &loader, &mut heap, &[]);
    assert!(matches!(result, Step::Fault));
}

#[test]
fn arraylength_of_reference_arrays() {
    // Reference arrays of Test with lengths 3, 5 and 2; slot 1 names the
    // third.
    let code = [
        0x06, 0xbd, 0x00, 0x02, 0x57, 0x08, 0xbd, 0x00, 0x02, 0x57, 0x05, 0xbd, 0x00, 0x02, 0x57,
        0x04, 0xbe, 0xac,
    ];
    let (loader, i) = loaded(&code, &[]);
    let mut heap = HeapSpace::new(16);
    let (_, result) = run(loader.class_at(i), &loader, &mut heap, &[]);
    assert!(matches!(result, Step::Return(MethodResult::Integer(2))));
}

#[test]
fn throw_without_a_handler_returns_an_exception() {
    // Three instances of Test; slot 1 names the third; athrow.
    let code = [
        0xbb, 0x00, 0x02, 0x57, 0xbb, 0x00, 0x02, 0x57, 0xbb, 0x00, 0x02, 0x57, 0x04, 0xbf,
    ];
    let (loader, i) = loaded(&code, &[]);
    let mut heap = HeapSpace::new(16);
    let (_, result) = run(loader.class_at(i), &loader, &mut heap, &[]);
    assert!(matches!(result, Step::Return(MethodResult::Exception)));
}

#[test]
fn throw_goes_to_the_start_of_a_matching_handler() {
    // The handler for Test starts at 14: iconst_4, ireturn.
    let code = [
        0xbb, 0x00, 0x02, 0x57, 0xbb, 0x00, 0x02, 0x57, 0xbb, 0x00, 0x02, 0x57, 0x04, 0xbf, 0x07,
        0xac,
    ];
    let (loader, i) = loaded(&code, &[(14, 16, 14, 2)]);
    let mut heap = HeapSpace::new(16);
    let (_, result) = run(loader.class_at(i), &loader, &mut heap, &[]);
    assert!(matches!(result, Step::Return(MethodResult::Integer(4))));
}

#[test]
fn instanceof_and_checkcast() {
    // Four instances of Test.  checkcast of slot 1 (the third) to Object
    // pushes its heap index, 2, which names the fourth.
    let code = [
        0xbb, 0x00, 0x02, 0x57, 0xbb, 0x00, 0x02, 0x57, 0xbb, 0x00, 0x02, 0x57, 0xbb, 0x00, 0x02,
        0x57, // four new Test, popped
        0x04, 0xc0, 0x00, 0x04, // iconst_1, checkcast Object
        0xc1, 0x00, 0x02, // instanceof Test
        0xac,
    ];
    let (loader, i) = loaded(&code, &[]);
    let mut heap = HeapSpace::new(16);
    let (_, result) = run(loader.class_at(i), &loader, &mut heap, &[]);
    assert!(matches!(result, Step::Return(MethodResult::Integer(1))));
}

#[test]
fn instanceof_null_is_zero() {
    let code = [0x01, 0xc1, 0x00, 0x02, 0xac];
    let (loader, i) = loaded(&code, &[]);
    let mut heap = HeapSpace::new(16);
    let (_, result) = run(loader.class_at(i), &loader, &mut heap, &[]);
    assert!(matches!(result, Step::Return(MethodResult::Integer(0))));
}

#[test]
fn jsr_pushes_the_return_position() {
    // jsr +0 lands on the byte after its offset; the address pushed is the
    // position after the opcode plus one.
    let code = [0xa8, 0x00, 0x00, 0xac];
    let (loader, i) = loaded(&code, &[]);
    let mut heap = HeapSpace::new(16);
    let (_, result) = run(loader.class_at(i), &loader, &mut heap, &[]);
    assert!(matches!(result, Step::Return(MethodResult::Integer(2))));
}

#[test]
fn void_return() {
    let (loader, i) = loaded(&[0xb1], &[]);
    let mut heap = HeapSpace::new(16);
    let (steps, result) = run(loader.class_at(i), &loader, &mut heap, &[]);
    assert_eq!(steps, 1);
    assert!(matches!(result, Step::Return(MethodResult::Void)));
}
