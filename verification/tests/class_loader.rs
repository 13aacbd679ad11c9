use astatine::class_loader::{ClassLoader, LoadResult, PendingStep};
use astatine::instructions::CodeParser;
use internship::IStr;

fn push_u16(b: &mut Vec<u8>, v: u16) {
    b.extend_from_slice(&v.to_be_bytes());
}

fn push_utf8(b: &mut Vec<u8>, s: &str) {
    b.push(1);
    push_u16(b, s.len() as u16);
    b.extend_from_slice(s.as_bytes());
}

/// A class named `name` with superclass `super_name` (none when `None`)
/// and the given interfaces, with no members.
fn class(name: &str, super_name: Option<&str>, interfaces: &[&str], flags: u16) -> Vec<u8> {
    let mut b = vec![0xCA, 0xFE, 0xBA, 0xBE, 0, 0, 0, 52];
    let mut names = vec![name];
    if let Some(s) = super_name {
        names.push(s);
    }
    names.extend_from_slice(interfaces);
    push_u16(&mut b, 1 + 2 * names.len() as u16);
    for (i, n) in names.iter().enumerate() {
        push_utf8(&mut b, n);
        b.push(7);
        push_u16(&mut b, 1 + 2 * i as u16);
    }
    push_u16(&mut b, flags);
    push_u16(&mut b, 2);
    push_u16(&mut b, if super_name.is_some() { 4 } else { 0 });
    push_u16(&mut b, interfaces.len() as u16);
    let first_interface = if super_name.is_some() { 2 } else { 1 };
    for i in 0..interfaces.len() {
        push_u16(&mut b, 2 + 2 * (first_interface + i) as u16);
    }
    push_u16(&mut b, 0);
    push_u16(&mut b, 0);
    push_u16(&mut b, 0);
    b
}

fn object() -> Vec<u8> {
    class("java/lang/Object", None, &[], 0x0021)
}

#[test]
fn loads_a_class_after_its_superclass() {
    let mut loader = ClassLoader::new();
    assert_eq!(loader.len(), 0);
    match loader.load_class("A", class("A", Some("java/lang/Object"), &[], 0x0021)) {
        LoadResult::Missing(n) => assert_eq!(n.as_str(), "java/lang/Object"),
        other => panic!("{:?}", other),
    }
    assert_eq!(loader.len(), 0);
    assert!(matches!(loader.load_class("java/lang/Object", object()), LoadResult::Loaded(0)));
    assert!(matches!(
        loader.load_class("A", class("A", Some("java/lang/Object"), &[], 0x0021)),
        LoadResult::Loaded(1)
    ));
    assert_eq!(loader.len(), 2);
    assert_eq!(loader.find("A"), Some(1));
    assert_eq!(loader.get_class("A").unwrap().name(), "A");
    assert!(loader.get_class("B").is_none());
}

#[test]
fn loading_again_keeps_the_first_class() {
    let mut loader = ClassLoader::new();
    assert!(matches!(loader.load_class("java/lang/Object", object()), LoadResult::Loaded(0)));
    // The bytes are not even read the second time.
    assert!(matches!(loader.load_class("java/lang/Object", vec![1, 2, 3]), LoadResult::Loaded(0)));
    assert_eq!(loader.len(), 1);
}

#[test]
fn malformed_class_files_are_invalid() {
    let mut loader = ClassLoader::new();
    assert!(matches!(loader.try_load_class("X", vec![0xCA, 0xFE]), LoadResult::Invalid));
    assert_eq!(loader.len(), 0);
}

#[test]
fn interfaces_load_before_their_implementations() {
    let mut loader = ClassLoader::new();
    assert!(matches!(loader.load_class("java/lang/Object", object()), LoadResult::Loaded(0)));
    let c = class("C", Some("java/lang/Object"), &["I"], 0x0021);
    match loader.load_class("C", c.clone()) {
        LoadResult::Missing(n) => assert_eq!(n.as_str(), "I"),
        other => panic!("{:?}", other),
    }
    let i = class("I", Some("java/lang/Object"), &[], 0x0601);
    assert!(matches!(loader.load_class("I", i), LoadResult::Loaded(1)));
    assert!(matches!(loader.load_class("C", c), LoadResult::Loaded(2)));
    assert_eq!(loader.class_at(2).interfaces().len(), 1);
    assert_eq!(loader.class_at(2).interfaces()[0].as_str(), "I");
}

#[test]
fn subclasses_follow_superclasses() {
    let mut loader = ClassLoader::new();
    assert!(matches!(loader.load_class("java/lang/Object", object()), LoadResult::Loaded(0)));
    assert!(matches!(
        loader.load_class("A", class("A", Some("java/lang/Object"), &[], 0x0021)),
        LoadResult::Loaded(1)
    ));
    assert!(matches!(loader.load_class("B", class("B", Some("A"), &[], 0x0021)), LoadResult::Loaded(2)));
    assert!(matches!(
        loader.load_class("D", class("D", Some("java/lang/Object"), &[], 0x0021)),
        LoadResult::Loaded(3)
    ));
    // reflexive
    assert!(loader.is_subclass(2, 2));
    // direct and transitive
    assert!(loader.is_subclass(2, 1));
    assert!(loader.is_subclass(2, 0));
    assert!(loader.is_subclass(1, 0));
    // not the other way, and not across branches
    assert!(!loader.is_subclass(0, 1));
    assert!(!loader.is_subclass(1, 2));
    assert!(!loader.is_subclass(3, 1));
}

/// The class file of each name the pending loads ask for.
fn file_of(name: &str) -> Vec<u8> {
    match name {
        "java/lang/Object" => object(),
        "B" => class("B", Some("A"), &[], 0x0021),
        "A" => class("A", Some("java/lang/Object"), &["I"], 0x0021),
        "I" => class("I", Some("java/lang/Object"), &[], 0x0601),
        other => panic!("no file for {}", other),
    }
}

#[test]
fn pending_loads_take_dependencies_first() {
    let mut loader = ClassLoader::new();
    let mut pending = vec![IStr::new("B")];
    let mut read = Vec::new();
    let index = loop {
        if let Some(index) = loader.settle(&mut pending) {
            break index;
        }
        let next = pending.last().unwrap().as_str().to_string();
        read.push(next.clone());
        assert!(matches!(loader.load_pending(&mut pending, file_of(&next)), PendingStep::Progress));
    };
    assert_eq!(read, vec!["B", "A", "java/lang/Object", "A", "I", "A", "B"]);
    assert_eq!(index, 3);
    assert_eq!(loader.class_at(index).name(), "B");
    assert_eq!(loader.find("A"), Some(2));
    assert!(pending.is_empty());
    // Settling again with the loaded name gives its index at once.
    let mut again = vec![IStr::new("A")];
    assert_eq!(loader.settle(&mut again), Some(2));
    assert!(again.is_empty());
}

#[test]
fn pending_loads_report_cycles_and_bad_files() {
    let mut loader = ClassLoader::new();
    assert!(matches!(loader.load_class("java/lang/Object", object()), LoadResult::Loaded(0)));
    let mut pending = vec![IStr::new("X"), IStr::new("Y")];
    assert_eq!(loader.settle(&mut pending), None);
    match loader.load_pending(&mut pending, class("Y", Some("X"), &[], 0x0021)) {
        PendingStep::Cycle(n) => assert_eq!(n.as_str(), "X"),
        other => panic!("{:?}", other),
    }
    assert_eq!(pending.len(), 2);
    assert!(matches!(loader.load_pending(&mut pending, vec![0xCA, 0xFE]), PendingStep::Invalid));
    assert_eq!(pending.len(), 2);
    assert_eq!(loader.len(), 1);
}

#[test]
fn emptiness_of_code_ignores_the_position() {
    let code = [0x00u8, 0x00];
    let mut parser = CodeParser::new(&code);
    assert!(!parser.is_empty());
    parser.next();
    parser.next();
    assert!(!parser.is_empty());
    assert!(CodeParser::new(&[]).is_empty());
}
