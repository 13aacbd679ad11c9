//! Classes (JVMS 4.1): the whole class file, from its magic number to its
//! last attribute.  A class names its superclass and its interfaces by
//! their binary names; the class loader finds the classes themselves.

use bytes::Bytes;
use internship::IStr;
use vstd::prelude::*;
use crate::access_flags::{
    AccessFlags, JVM_RECOGNIZED_CLASS_MODIFIERS, spec_class_modifiers_legal, class_modifiers_legal,
};
use crate::constant_pool::{ConstantPool, SpecPool, pool_class_name_at, pool_utf8_at, spec_parse_pool};
use crate::constants::{
    JAVA_CLASS_FILE_MAGIC, JAVA_LANG_OBJECT_NAME, JAVA_VERSION_6, JAVA_VERSION_9, JVM_ACC_ABSTRACT,
    JVM_ACC_ANNOTATION, JVM_ACC_ENUM, JVM_ACC_FINAL, JVM_ACC_INTERFACE, JVM_ACC_MODULE,
    JVM_ACC_PRIVATE, JVM_ACC_PROTECTED, JVM_ACC_PUBLIC, JVM_ACC_STATIC, JVM_ACC_SUPER,
    JVM_ACC_SYNTHETIC,
};
use crate::field::{Field, SpecField, field_item, optional_istr_view, spec_field};
use crate::method::{
    BootstrapMethod, Method, SpecBootstrapMethod, SpecMethod, bootstrap_method_item, method_item,
    spec_bootstrap_method, spec_method,
};
use crate::reader::{
    at, lemma_views_empty, lemma_views_push, read_u16, read_u32, skip_bytes, spec_counted,
    spec_repeat, spec_skip, spec_u16, spec_u32, views,
};
use crate::record::{RecordComponent, SpecRecordComponent, record_component_item, spec_record_component};
use crate::strings::{istr_as_str, istr_eq_str, istr_view};

verus! {

// ---------------------------------------------------------------------------
// The model
// ---------------------------------------------------------------------------

pub struct SpecInnerClassInfo {
    pub index: u16,
    pub name: Option<Seq<char>>,
    pub access_flags: u32,
    pub outer_index: u16,
}

pub struct SpecClassAttributes {
    pub source_file_name: Option<Seq<char>>,
    pub inner_classes: Option<Seq<SpecInnerClassInfo>>,
    pub record_components: Option<Seq<SpecRecordComponent>>,
    pub bootstrap_methods: Option<Seq<SpecBootstrapMethod>>,
}

pub open spec fn no_class_attributes() -> SpecClassAttributes {
    SpecClassAttributes {
        source_file_name: None,
        inner_classes: None,
        record_components: None,
        bootstrap_methods: None,
    }
}

pub struct SpecClass {
    pub minor_version: u16,
    pub major_version: u16,
    pub access_flags: u32,
    pub constant_pool: SpecPool,
    pub name: Seq<char>,
    pub super_class: Option<Seq<char>>,
    pub interfaces: Seq<Seq<char>>,
    pub fields: Seq<SpecField>,
    pub methods: Seq<SpecMethod>,
    pub source_file_name: Option<Seq<char>>,
    pub inner_classes: Seq<SpecInnerClassInfo>,
    pub record_components: Seq<SpecRecordComponent>,
    pub bootstrap_methods: Seq<SpecBootstrapMethod>,
}

/// An entry of the `InnerClasses` attribute: the class's pool index, the
/// pool index of the class that declares it, its simple name (none for
/// index 0 or an index that names no UTF-8 entry) and its flags.
pub open spec fn spec_inner_class(pool: SpecPool, s: Seq<u8>, p: int) -> Option<(SpecInnerClassInfo, int)> {
    match spec_u16(s, p) {
        Some((index, q1)) => match spec_u16(s, q1) {
            Some((outer_index, q2)) => match spec_u16(s, q2) {
                Some((name_index, q3)) => match spec_u16(s, q3) {
                    Some((flags, e)) => Some(
                        (SpecInnerClassInfo {
                            index,
                            name: pool_utf8_at(pool, name_index as int),
                            access_flags: flags as u32,
                            outer_index,
                        }, e),
                    ),
                    None => None,
                },
                None => None,
            },
            None => None,
        },
        None => None,
    }
}

pub open spec fn inner_class_item(pool: SpecPool) -> spec_fn(Seq<u8>, int) -> Option<(SpecInnerClassInfo, int)> {
    |s: Seq<u8>, p: int| spec_inner_class(pool, s, p)
}

/// An interface of the class: a pool index that names a class entry.
pub open spec fn spec_interface(pool: SpecPool, s: Seq<u8>, p: int) -> Option<(Seq<char>, int)> {
    match spec_u16(s, p) {
        Some((index, e)) => match pool_class_name_at(pool, index as int) {
            Some(name) => Some((name, e)),
            None => None,
        },
        None => None,
    }
}

pub open spec fn interface_item(pool: SpecPool) -> spec_fn(Seq<u8>, int) -> Option<(Seq<char>, int)> {
    |s: Seq<u8>, p: int| spec_interface(pool, s, p)
}

/// `n` class attributes from `p`, folded into `acc`.  Each of the four
/// kinds that are read may occur once; others are skipped.
pub open spec fn spec_class_attributes(
    pool: SpecPool,
    major_version: u16,
    s: Seq<u8>,
    p: int,
    n: nat,
    acc: SpecClassAttributes,
) -> Option<(SpecClassAttributes, int)>
    decreases n,
{
    if n == 0 {
        Some((acc, p))
    } else if !(s.len() - p >= 6) {
        None
    } else {
        match spec_u16(s, p) {
            Some((name_index, q1)) => match pool_utf8_at(pool, name_index as int) {
                Some(name) => match spec_u32(s, q1) {
                    Some((length, q2)) => if name == "SourceFile"@ {
                        if length != 2 || acc.source_file_name is Some {
                            None
                        } else {
                            match spec_u16(s, q2) {
                                Some((index, e)) => match pool_utf8_at(pool, index as int) {
                                    Some(v) => spec_class_attributes(
                                        pool,
                                        major_version,
                                        s,
                                        e,
                                        (n - 1) as nat,
                                        SpecClassAttributes { source_file_name: Some(v), ..acc },
                                    ),
                                    None => None,
                                },
                                None => None,
                            }
                        }
                    } else if name == "InnerClasses"@ {
                        if acc.inner_classes is Some {
                            None
                        } else {
                            match spec_counted(inner_class_item(pool), s, q2) {
                                Some((v, e)) => spec_class_attributes(
                                    pool,
                                    major_version,
                                    s,
                                    e,
                                    (n - 1) as nat,
                                    SpecClassAttributes { inner_classes: Some(v), ..acc },
                                ),
                                None => None,
                            }
                        }
                    } else if name == "Record"@ {
                        if acc.record_components is Some {
                            None
                        } else {
                            match spec_counted(record_component_item(pool), s, q2) {
                                Some((v, e)) => spec_class_attributes(
                                    pool,
                                    major_version,
                                    s,
                                    e,
                                    (n - 1) as nat,
                                    SpecClassAttributes { record_components: Some(v), ..acc },
                                ),
                                None => None,
                            }
                        }
                    } else if name == "BootstrapMethods"@ {
                        if acc.bootstrap_methods is Some {
                            None
                        } else {
                            match spec_counted(bootstrap_method_item(pool, major_version), s, q2) {
                                Some((v, e)) => spec_class_attributes(
                                    pool,
                                    major_version,
                                    s,
                                    e,
                                    (n - 1) as nat,
                                    SpecClassAttributes { bootstrap_methods: Some(v), ..acc },
                                ),
                                None => None,
                            }
                        }
                    } else {
                        match spec_skip(s, q2, length as int) {
                            Some(e) => spec_class_attributes(
                                pool,
                                major_version,
                                s,
                                e,
                                (n - 1) as nat,
                                acc,
                            ),
                            None => None,
                        }
                    },
                    None => None,
                },
                None => None,
            },
            None => None,
        }
    }
}

/// The class's flags: the recognised modifiers of the raw flags (and, from
/// Java 9, the module flag); an interface of a class file before Java 6 is
/// made abstract.
pub open spec fn spec_class_flags(major_version: u16, raw: u16) -> u32 {
    let masked = if major_version >= JAVA_VERSION_9 {
        (raw as u32) & (JVM_RECOGNIZED_CLASS_MODIFIERS | JVM_ACC_MODULE)
    } else {
        (raw as u32) & JVM_RECOGNIZED_CLASS_MODIFIERS
    };
    if masked & JVM_ACC_INTERFACE != 0 && major_version < JAVA_VERSION_6 {
        masked | JVM_ACC_ABSTRACT
    } else {
        masked
    }
}

/// The superclass named by pool index `index`: an interface must name
/// one; index 0 names none and is only allowed for `java/lang/Object`.
pub open spec fn spec_super_class(pool: SpecPool, name: Seq<char>, flags: u32, index: u16) -> Option<Option<Seq<char>>> {
    if flags & JVM_ACC_INTERFACE != 0 && index == 0 {
        None
    } else if index == 0 {
        if name == JAVA_LANG_OBJECT_NAME@ {
            Some(None)
        } else {
            None
        }
    } else {
        match pool_class_name_at(pool, index as int) {
            Some(v) => Some(Some(v)),
            None => None,
        }
    }
}

/// The part of a class file after its constant pool and flags: this
/// class, superclass, interfaces, fields, methods and attributes.
pub open spec fn spec_class_body(
    pool: SpecPool,
    minor_version: u16,
    major_version: u16,
    flags: u32,
    s: Seq<u8>,
    p: int,
) -> Option<SpecClass> {
    match spec_u16(s, p) {
        Some((this_class, q1)) => match pool_class_name_at(pool, this_class as int) {
            Some(name) => match spec_u16(s, q1) {
                Some((super_index, q2)) => match spec_super_class(pool, name, flags, super_index) {
                    Some(super_class) => match spec_counted(interface_item(pool), s, q2) {
                        Some((interfaces, q3)) => match spec_counted(
                            field_item(pool, major_version, flags),
                            s,
                            q3,
                        ) {
                            Some((fields, q4)) => match spec_counted(
                                method_item(pool, major_version, flags),
                                s,
                                q4,
                            ) {
                                Some((methods, q5)) => match spec_u16(s, q5) {
                                    Some((count, q6)) => match spec_class_attributes(
                                        pool,
                                        major_version,
                                        s,
                                        q6,
                                        count as nat,
                                        no_class_attributes(),
                                    ) {
                                        Some((attrs, e)) => if (pool.has_dynamic
                                            && attrs.bootstrap_methods is None) || e != s.len() {
                                            None
                                        } else {
                                            Some(
                                                SpecClass {
                                                    minor_version,
                                                    major_version,
                                                    access_flags: flags,
                                                    constant_pool: pool,
                                                    name,
                                                    super_class,
                                                    interfaces,
                                                    fields,
                                                    methods,
                                                    source_file_name: attrs.source_file_name,
                                                    inner_classes: match attrs.inner_classes {
                                                        Some(v) => v,
                                                        None => seq![],
                                                    },
                                                    record_components: match attrs.record_components {
                                                        Some(v) => v,
                                                        None => seq![],
                                                    },
                                                    bootstrap_methods: match attrs.bootstrap_methods {
                                                        Some(v) => v,
                                                        None => seq![],
                                                    },
                                                },
                                            )
                                        },
                                        None => None,
                                    },
                                    None => None,
                                },
                                None => None,
                            },
                            None => None,
                        },
                        None => None,
                    },
                    None => None,
                },
                None => None,
            },
            None => None,
        },
        None => None,
    }
}

/// A whole class file: the magic number, the version, the constant pool,
/// legal flags and the body, with no bytes left over.
pub open spec fn spec_class(s: Seq<u8>) -> Option<SpecClass> {
    match spec_u32(s, 0) {
        Some((magic, q1)) => if magic != JAVA_CLASS_FILE_MAGIC {
            None
        } else {
            match spec_u16(s, q1) {
                Some((minor_version, q2)) => match spec_u16(s, q2) {
                    Some((major_version, q3)) => match spec_parse_pool(s, q3) {
                        Some((pool, q4)) => match spec_u16(s, q4) {
                            Some((raw_flags, q5)) => {
                                let flags = spec_class_flags(major_version, raw_flags);
                                if !spec_class_modifiers_legal(major_version, flags) {
                                    None
                                } else {
                                    spec_class_body(pool, minor_version, major_version, flags, s, q5)
                                }
                            },
                            None => None,
                        },
                        None => None,
                    },
                    None => None,
                },
                None => None,
            }
        },
        None => None,
    }
}

// ---------------------------------------------------------------------------
// Inner classes
// ---------------------------------------------------------------------------

/// An entry of the `InnerClasses` attribute.
#[derive(Debug)]
pub struct InnerClassInfo {
    index: u16,
    name: Option<IStr>,
    access_flags: AccessFlags,
    outer_index: u16,
}

impl View for InnerClassInfo {
    type V = SpecInnerClassInfo;

    closed spec fn view(&self) -> SpecInnerClassInfo {
        SpecInnerClassInfo {
            index: self.index,
            name: optional_istr_view(self.name),
            access_flags: self.access_flags.flags,
            outer_index: self.outer_index,
        }
    }
}

impl InnerClassInfo {
    /// The input must be well-formed (see `try_parse`).
    pub fn parse(pool: &ConstantPool, buf: &mut Bytes, Ghost(s): Ghost<Seq<u8>>, Ghost(p): Ghost<int>) -> (r: InnerClassInfo)
        requires
            at(*old(buf), s, p),
            spec_inner_class(pool@, s, p) is Some,
        ensures
            spec_inner_class(pool@, s, p) matches Some((w, e)) && w == r@ && at(*final(buf), s, e),
    {
        match InnerClassInfo::try_parse(pool, buf, Ghost(s), Ghost(p)) {
            Some(v) => v,
            None => vstd::pervasive::unreached(),
        }
    }

    /// Reads as `parse` does, answering `None` where the input is not
    /// well-formed.
    pub fn try_parse(pool: &ConstantPool, buf: &mut Bytes, Ghost(s): Ghost<Seq<u8>>, Ghost(p): Ghost<int>) -> (r: Option<InnerClassInfo>)
        requires
            at(*old(buf), s, p),
        ensures
            match r {
                Some(v) => spec_inner_class(pool@, s, p) matches Some((w, e)) && w == v@ && at(
                    *final(buf),
                    s,
                    e,
                ),
                None => spec_inner_class(pool@, s, p) is None,
            },
    {
        let index = read_u16(buf, Ghost(s), Ghost(p))?;
        let outer_index = read_u16(buf, Ghost(s), Ghost(p + 2))?;
        let name_index = read_u16(buf, Ghost(s), Ghost(p + 4))?;
        let name = pool.utf8_at(name_index);
        let flags = read_u16(buf, Ghost(s), Ghost(p + 6))?;
        Some(InnerClassInfo { index, name, access_flags: AccessFlags::new(flags as u32), outer_index })
    }

    /// The pool index of the inner class.
    pub fn index(&self) -> (r: u16)
        ensures
            r == self@.index,
    {
        self.index
    }

    /// The simple name of the inner class, absent for anonymous classes.
    pub fn name(&self) -> (r: Option<&str>)
        ensures
            match r {
                Some(v) => self@.name == Some(v@),
                None => self@.name is None,
            },
    {
        match &self.name {
            Some(v) => Some(istr_as_str(v)),
            None => None,
        }
    }

    /// The pool index of the class that declares the inner class.
    pub fn outer_index(&self) -> (r: u16)
        ensures
            r == self@.outer_index,
    {
        self.outer_index
    }

    pub fn flags(&self) -> (r: u32)
        ensures
            r == self@.access_flags,
    {
        self.access_flags.flags
    }

    pub fn is_final(&self) -> (r: bool)
        ensures
            r == (self@.access_flags & JVM_ACC_FINAL != 0),
    {
        self.access_flags.flags & JVM_ACC_FINAL != 0
    }

    pub fn is_public(&self) -> (r: bool)
        ensures
            r == (self@.access_flags & JVM_ACC_PUBLIC != 0),
    {
        self.access_flags.flags & JVM_ACC_PUBLIC != 0
    }

    pub fn is_abstract(&self) -> (r: bool)
        ensures
            r == (self@.access_flags & JVM_ACC_ABSTRACT != 0),
    {
        self.access_flags.flags & JVM_ACC_ABSTRACT != 0
    }

    pub fn is_private(&self) -> (r: bool)
        ensures
            r == (self@.access_flags & JVM_ACC_PRIVATE != 0),
    {
        self.access_flags.flags & JVM_ACC_PRIVATE != 0
    }

    pub fn is_protected(&self) -> (r: bool)
        ensures
            r == (self@.access_flags & JVM_ACC_PROTECTED != 0),
    {
        self.access_flags.flags & JVM_ACC_PROTECTED != 0
    }

    pub fn is_static(&self) -> (r: bool)
        ensures
            r == (self@.access_flags & JVM_ACC_STATIC != 0),
    {
        self.access_flags.flags & JVM_ACC_STATIC != 0
    }

    pub fn is_interface(&self) -> (r: bool)
        ensures
            r == (self@.access_flags & JVM_ACC_INTERFACE != 0),
    {
        self.access_flags.flags & JVM_ACC_INTERFACE != 0
    }
}

// ---------------------------------------------------------------------------
// Lists
// ---------------------------------------------------------------------------

pub open spec fn names_view(v: Seq<IStr>) -> Seq<Seq<char>> {
    v.map_values(|x: IStr| istr_view(x))
}

/// Reads a `u16` count, then that many interface names.
fn read_interfaces(pool: &ConstantPool, buf: &mut Bytes, Ghost(s): Ghost<Seq<u8>>, Ghost(p): Ghost<int>) -> (r: Option<Vec<IStr>>)
    requires
        at(*old(buf), s, p),
    ensures
        match r {
            Some(v) => spec_counted(interface_item(pool@), s, p) matches Some((w, e)) && w == names_view(v@) && at(*final(buf), s, e),
            None => spec_counted(interface_item(pool@), s, p) is None,
        },
{
    let count = read_u16(buf, Ghost(s), Ghost(p))?;
    let mut list: Vec<IStr> = Vec::new();
    let mut i: u16 = 0;
    let ghost mut q = p + 2;
    proof {
        assert(names_view(list@) =~= Seq::<Seq<char>>::empty());
    }
    while i < count
        invariant
            i <= count,
            at(*buf, s, q),
            spec_counted(interface_item(pool@), s, p) == spec_repeat(
                interface_item(pool@),
                s,
                q,
                (count - i) as nat,
                names_view(list@),
            ),
        decreases count - i,
    {
        let v = {
            let index = read_u16(buf, Ghost(s), Ghost(q))?;
            pool.class_name_at(index)?
        };
        proof {
            assert(names_view(list@.push(v)) =~= names_view(list@).push(istr_view(v)));
            q = match spec_interface(pool@, s, q) {
                Some((_, e)) => e,
                None => q,
            };
        }
        list.push(v);
        i = i + 1;
    }
    Some(list)
}

/// Reads a `u16` count, then that many fields.
fn read_fields(pool: &ConstantPool, buf: &mut Bytes, major_version: u16, class_flags: AccessFlags, Ghost(s): Ghost<Seq<u8>>, Ghost(p): Ghost<int>) -> (r: Option<Vec<Field>>)
    requires
        at(*old(buf), s, p),
    ensures
        match r {
            Some(v) => spec_counted(field_item(pool@, major_version, class_flags.flags), s, p) matches Some((w, e)) && w == views(v@) && at(*final(buf), s, e),
            None => spec_counted(field_item(pool@, major_version, class_flags.flags), s, p) is None,
        },
{
    let count = read_u16(buf, Ghost(s), Ghost(p))?;
    let mut list: Vec<Field> = Vec::new();
    let mut i: u16 = 0;
    let ghost mut q = p + 2;
    proof {
        lemma_views_empty(list@);
    }
    while i < count
        invariant
            i <= count,
            at(*buf, s, q),
            spec_counted(field_item(pool@, major_version, class_flags.flags), s, p) == spec_repeat(
                field_item(pool@, major_version, class_flags.flags),
                s,
                q,
                (count - i) as nat,
                views(list@),
            ),
        decreases count - i,
    {
        let v = Field::try_parse(pool, buf, major_version, class_flags, Ghost(s), Ghost(q))?;
        proof {
            lemma_views_push(list@, v);
            q = match spec_field(pool@, major_version, class_flags.flags, s, q) {
                Some((_, e)) => e,
                None => q,
            };
        }
        list.push(v);
        i = i + 1;
    }
    Some(list)
}

/// Reads a `u16` count, then that many methods.
fn read_methods(pool: &ConstantPool, buf: &mut Bytes, major_version: u16, class_flags: AccessFlags, Ghost(s): Ghost<Seq<u8>>, Ghost(p): Ghost<int>) -> (r: Option<Vec<Method>>)
    requires
        at(*old(buf), s, p),
    ensures
        match r {
            Some(v) => spec_counted(method_item(pool@, major_version, class_flags.flags), s, p) matches Some((w, e)) && w == views(v@) && at(*final(buf), s, e),
            None => spec_counted(method_item(pool@, major_version, class_flags.flags), s, p) is None,
        },
{
    let count = read_u16(buf, Ghost(s), Ghost(p))?;
    let mut list: Vec<Method> = Vec::new();
    let mut i: u16 = 0;
    let ghost mut q = p + 2;
    proof {
        lemma_views_empty(list@);
    }
    while i < count
        invariant
            i <= count,
            at(*buf, s, q),
            spec_counted(method_item(pool@, major_version, class_flags.flags), s, p) == spec_repeat(
                method_item(pool@, major_version, class_flags.flags),
                s,
                q,
                (count - i) as nat,
                views(list@),
            ),
        decreases count - i,
    {
        let v = Method::try_parse(pool, buf, major_version, class_flags, Ghost(s), Ghost(q))?;
        proof {
            lemma_views_push(list@, v);
            q = match spec_method(pool@, major_version, class_flags.flags, s, q) {
                Some((_, e)) => e,
                None => q,
            };
        }
        list.push(v);
        i = i + 1;
    }
    Some(list)
}

/// Reads a `u16` count, then that many inner class entries.
fn read_inner_classes(pool: &ConstantPool, buf: &mut Bytes, Ghost(s): Ghost<Seq<u8>>, Ghost(p): Ghost<int>) -> (r: Option<Vec<InnerClassInfo>>)
    requires
        at(*old(buf), s, p),
    ensures
        match r {
            Some(v) => spec_counted(inner_class_item(pool@), s, p) matches Some((w, e)) && w == views(v@) && at(*final(buf), s, e),
            None => spec_counted(inner_class_item(pool@), s, p) is None,
        },
{
    let count = read_u16(buf, Ghost(s), Ghost(p))?;
    let mut list: Vec<InnerClassInfo> = Vec::new();
    let mut i: u16 = 0;
    let ghost mut q = p + 2;
    proof {
        lemma_views_empty(list@);
    }
    while i < count
        invariant
            i <= count,
            at(*buf, s, q),
            spec_counted(inner_class_item(pool@), s, p) == spec_repeat(
                inner_class_item(pool@),
                s,
                q,
                (count - i) as nat,
                views(list@),
            ),
        decreases count - i,
    {
        let v = InnerClassInfo::try_parse(pool, buf, Ghost(s), Ghost(q))?;
        proof {
            lemma_views_push(list@, v);
            q = match spec_inner_class(pool@, s, q) {
                Some((_, e)) => e,
                None => q,
            };
        }
        list.push(v);
        i = i + 1;
    }
    Some(list)
}

/// Reads a `u16` count, then that many record components.
fn read_record_components(pool: &ConstantPool, buf: &mut Bytes, Ghost(s): Ghost<Seq<u8>>, Ghost(p): Ghost<int>) -> (r: Option<Vec<RecordComponent>>)
    requires
        at(*old(buf), s, p),
    ensures
        match r {
            Some(v) => spec_counted(record_component_item(pool@), s, p) matches Some((w, e)) && w == views(v@) && at(*final(buf), s, e),
            None => spec_counted(record_component_item(pool@), s, p) is None,
        },
{
    let count = read_u16(buf, Ghost(s), Ghost(p))?;
    let mut list: Vec<RecordComponent> = Vec::new();
    let mut i: u16 = 0;
    let ghost mut q = p + 2;
    proof {
        lemma_views_empty(list@);
    }
    while i < count
        invariant
            i <= count,
            at(*buf, s, q),
            spec_counted(record_component_item(pool@), s, p) == spec_repeat(
                record_component_item(pool@),
                s,
                q,
                (count - i) as nat,
                views(list@),
            ),
        decreases count - i,
    {
        let v = RecordComponent::try_parse(pool, buf, Ghost(s), Ghost(q))?;
        proof {
            lemma_views_push(list@, v);
            q = match spec_record_component(pool@, s, q) {
                Some((_, e)) => e,
                None => q,
            };
        }
        list.push(v);
        i = i + 1;
    }
    Some(list)
}

/// Reads a `u16` count, then that many bootstrap methods.
fn read_bootstrap_methods(pool: &ConstantPool, buf: &mut Bytes, major_version: u16, Ghost(s): Ghost<Seq<u8>>, Ghost(p): Ghost<int>) -> (r: Option<Vec<BootstrapMethod>>)
    requires
        at(*old(buf), s, p),
    ensures
        match r {
            Some(v) => spec_counted(bootstrap_method_item(pool@, major_version), s, p) matches Some((w, e)) && w == views(v@) && at(*final(buf), s, e),
            None => spec_counted(bootstrap_method_item(pool@, major_version), s, p) is None,
        },
{
    let count = read_u16(buf, Ghost(s), Ghost(p))?;
    let mut list: Vec<BootstrapMethod> = Vec::new();
    let mut i: u16 = 0;
    let ghost mut q = p + 2;
    proof {
        lemma_views_empty(list@);
    }
    while i < count
        invariant
            i <= count,
            at(*buf, s, q),
            spec_counted(bootstrap_method_item(pool@, major_version), s, p) == spec_repeat(
                bootstrap_method_item(pool@, major_version),
                s,
                q,
                (count - i) as nat,
                views(list@),
            ),
        decreases count - i,
    {
        let v = BootstrapMethod::try_parse(pool, buf, major_version, Ghost(s), Ghost(q))?;
        proof {
            lemma_views_push(list@, v);
            q = match spec_bootstrap_method(pool@, major_version, s, q) {
                Some((_, e)) => e,
                None => q,
            };
        }
        list.push(v);
        i = i + 1;
    }
    Some(list)
}

// ---------------------------------------------------------------------------
// Attributes
// ---------------------------------------------------------------------------

pub open spec fn optional_views<T: View>(v: Option<Vec<T>>) -> Option<Seq<T::V>> {
    match v {
        Some(x) => Some(views(x@)),
        None => None,
    }
}

/// The attributes of a class: source file name, inner classes, record
/// components and bootstrap methods.
fn try_parse_attributes(
    pool: &ConstantPool,
    buf: &mut Bytes,
    major_version: u16,
    Ghost(s): Ghost<Seq<u8>>,
    Ghost(p): Ghost<int>,
) -> (r: Option<(Option<IStr>, Option<Vec<InnerClassInfo>>, Option<Vec<RecordComponent>>, Option<Vec<BootstrapMethod>>)>)
    requires
        at(*old(buf), s, p),
    ensures
        match r {
            Some((f, c, k, b)) => spec_u16(s, p) matches Some((n, q)) && spec_class_attributes(
                pool@,
                major_version,
                s,
                q,
                n as nat,
                no_class_attributes(),
            ) matches Some((w, e)) && w == (SpecClassAttributes {
                source_file_name: optional_istr_view(f),
                inner_classes: optional_views(c),
                record_components: optional_views(k),
                bootstrap_methods: optional_views(b),
            }) && at(*final(buf), s, e),
            None => !(spec_u16(s, p) matches Some((n, q)) && spec_class_attributes(
                pool@,
                major_version,
                s,
                q,
                n as nat,
                no_class_attributes(),
            ) is Some),
        },
{
    let mut source_file_name: Option<IStr> = None;
    let mut inner_classes: Option<Vec<InnerClassInfo>> = None;
    let mut record_components: Option<Vec<RecordComponent>> = None;
    let mut bootstrap_methods: Option<Vec<BootstrapMethod>> = None;
    let attributes_count = read_u16(buf, Ghost(s), Ghost(p))?;
    let mut count = attributes_count;
    let ghost mut q = p + 2;
    while count > 0
        invariant
            at(*buf, s, q),
            spec_u16(s, p) == Some((attributes_count, p + 2)),
            spec_class_attributes(
                pool@,
                major_version,
                s,
                p + 2,
                attributes_count as nat,
                no_class_attributes(),
            ) == spec_class_attributes(
                pool@,
                major_version,
                s,
                q,
                count as nat,
                SpecClassAttributes {
                    source_file_name: optional_istr_view(source_file_name),
                    inner_classes: optional_views(inner_classes),
                    record_components: optional_views(record_components),
                    bootstrap_methods: optional_views(bootstrap_methods),
                },
            ),
        decreases count,
    {
        if crate::buffers::bytes_remaining(buf) < 6 {
            return None;
        }
        let name_index = read_u16(buf, Ghost(s), Ghost(q))?;
        let attribute_name = pool.utf8_at(name_index)?;
        let attribute_length = read_u32(buf, Ghost(s), Ghost(q + 2))?;
        if istr_eq_str(&attribute_name, "SourceFile") {
            if attribute_length != 2 || source_file_name.is_some() {
                return None;
            }
            let index = read_u16(buf, Ghost(s), Ghost(q + 6))?;
            let v = pool.utf8_at(index)?;
            proof {
                q = q + 8;
            }
            source_file_name = Some(v);
        } else if istr_eq_str(&attribute_name, "InnerClasses") {
            if inner_classes.is_some() {
                return None;
            }
            let v = read_inner_classes(pool, buf, Ghost(s), Ghost(q + 6))?;
            proof {
                q = match spec_counted(inner_class_item(pool@), s, q + 6) {
                    Some((_, e)) => e,
                    None => q,
                };
            }
            inner_classes = Some(v);
        } else if istr_eq_str(&attribute_name, "Record") {
            if record_components.is_some() {
                return None;
            }
            let v = read_record_components(pool, buf, Ghost(s), Ghost(q + 6))?;
            proof {
                q = match spec_counted(record_component_item(pool@), s, q + 6) {
                    Some((_, e)) => e,
                    None => q,
                };
            }
            record_components = Some(v);
        } else if istr_eq_str(&attribute_name, "BootstrapMethods") {
            if bootstrap_methods.is_some() {
                return None;
            }
            let v = read_bootstrap_methods(pool, buf, major_version, Ghost(s), Ghost(q + 6))?;
            proof {
                q = match spec_counted(bootstrap_method_item(pool@, major_version), s, q + 6) {
                    Some((_, e)) => e,
                    None => q,
                };
            }
            bootstrap_methods = Some(v);
        } else {
            if !skip_bytes(buf, attribute_length as usize, Ghost(s), Ghost(q + 6)) {
                return None;
            }
            proof {
                q = q + 6 + attribute_length;
            }
        }
        count = count - 1;
    }
    Some((source_file_name, inner_classes, record_components, bootstrap_methods))
}

// ---------------------------------------------------------------------------
// Classes
// ---------------------------------------------------------------------------

/// The flags of a class, computed from the raw flags of its class file.
fn class_flags(major_version: u16, raw: u16) -> (r: u32)
    ensures
        r == spec_class_flags(major_version, raw),
{
    let mut flags: u32 = if major_version >= JAVA_VERSION_9 {
        (raw as u32) & (JVM_RECOGNIZED_CLASS_MODIFIERS | JVM_ACC_MODULE)
    } else {
        (raw as u32) & JVM_RECOGNIZED_CLASS_MODIFIERS
    };
    if flags & JVM_ACC_INTERFACE != 0 && major_version < JAVA_VERSION_6 {
        flags = flags | JVM_ACC_ABSTRACT;
    }
    flags
}

/// The superclass named by `index` in a class named `name`.
fn resolve_superclass(pool: &ConstantPool, name: &IStr, index: u16, flags: u32) -> (r: Option<Option<IStr>>)
    ensures
        match r {
            Some(v) => spec_super_class(pool@, istr_view(*name), flags, index) == Some(
                optional_istr_view(v),
            ),
            None => spec_super_class(pool@, istr_view(*name), flags, index) is None,
        },
{
    if flags & JVM_ACC_INTERFACE != 0 && index == 0 {
        return None;
    }
    if index == 0 {
        if istr_eq_str(name, JAVA_LANG_OBJECT_NAME) {
            return Some(None);
        }
        return None;
    }
    match pool.class_name_at(index) {
        Some(v) => Some(Some(v)),
        None => None,
    }
}

/// A class or interface read from a class file.
#[derive(Debug)]
pub struct Class {
    minor_version: u16,
    major_version: u16,
    access_flags: AccessFlags,
    constant_pool: ConstantPool,
    name: IStr,
    super_class: Option<IStr>,
    interfaces: Vec<IStr>,
    fields: Vec<Field>,
    methods: Vec<Method>,
    source_file_name: Option<IStr>,
    inner_classes: Vec<InnerClassInfo>,
    record_components: Vec<RecordComponent>,
    bootstrap_methods: Vec<BootstrapMethod>,
}

impl View for Class {
    type V = SpecClass;

    closed spec fn view(&self) -> SpecClass {
        SpecClass {
            minor_version: self.minor_version,
            major_version: self.major_version,
            access_flags: self.access_flags.flags,
            constant_pool: self.constant_pool@,
            name: istr_view(self.name),
            super_class: optional_istr_view(self.super_class),
            interfaces: names_view(self.interfaces@),
            fields: views(self.fields@),
            methods: views(self.methods@),
            source_file_name: optional_istr_view(self.source_file_name),
            inner_classes: views(self.inner_classes@),
            record_components: views(self.record_components@),
            bootstrap_methods: views(self.bootstrap_methods@),
        }
    }
}

fn unwrap_list<T: View>(v: Option<Vec<T>>) -> (r: Vec<T>)
    ensures
        views(r@) == match optional_views(v) {
            Some(x) => x,
            None => seq![],
        },
{
    match v {
        Some(x) => x,
        None => {
            let x: Vec<T> = Vec::new();
            proof {
                lemma_views_empty(x@);
            }
            x
        },
    }
}

impl Class {
    /// Reads a class from the bytes of its class file, which must be a
    /// well-formed class file: the magic number, every part, every rule, and
    /// no bytes after the last attribute (see `try_parse`).
    pub fn parse(contents: Vec<u8>) -> (r: Class)
        requires
            spec_class(contents@) is Some,
        ensures
            spec_class(contents@) == Some(r@),
    {
        match Class::try_parse(contents) {
            Some(c) => c,
            None => vstd::pervasive::unreached(),
        }
    }

    /// Reads a class as `parse` does, answering `None` where the bytes are
    /// not a well-formed class file.
    pub fn try_parse(contents: Vec<u8>) -> (r: Option<Class>)
        ensures
            match r {
                Some(c) => spec_class(contents@) == Some(c@),
                None => spec_class(contents@) is None,
            },
    {
        let ghost s = contents@;
        let mut buf = crate::buffers::bytes_from_vec(contents);
        proof {
            assert(s.skip(0) =~= s);
        }
        let magic = read_u32(&mut buf, Ghost(s), Ghost(0))?;
        if magic != JAVA_CLASS_FILE_MAGIC {
            return None;
        }
        let minor_version = read_u16(&mut buf, Ghost(s), Ghost(4))?;
        let major_version = read_u16(&mut buf, Ghost(s), Ghost(6))?;
        let constant_pool = ConstantPool::try_parse(&mut buf, Ghost(s), Ghost(8))?;
        let ghost q4 = match spec_parse_pool(s, 8) {
            Some((_, e)) => e,
            None => 0,
        };
        let raw_flags = read_u16(&mut buf, Ghost(s), Ghost(q4))?;
        let flags = class_flags(major_version, raw_flags);
        if !class_modifiers_legal(major_version, flags) {
            return None;
        }
        let this_class = read_u16(&mut buf, Ghost(s), Ghost(q4 + 2))?;
        let name = constant_pool.class_name_at(this_class)?;
        let super_index = read_u16(&mut buf, Ghost(s), Ghost(q4 + 4))?;
        let super_class = resolve_superclass(&constant_pool, &name, super_index, flags)?;
        let access_flags = AccessFlags::new(flags);
        let interfaces = read_interfaces(&constant_pool, &mut buf, Ghost(s), Ghost(q4 + 6))?;
        let ghost q5 = match spec_counted(interface_item(constant_pool@), s, q4 + 6) {
            Some((_, e)) => e,
            None => 0,
        };
        let fields = read_fields(&constant_pool, &mut buf, major_version, access_flags, Ghost(s), Ghost(q5))?;
        let ghost q6 = match spec_counted(field_item(constant_pool@, major_version, flags), s, q5) {
            Some((_, e)) => e,
            None => 0,
        };
        let methods = read_methods(&constant_pool, &mut buf, major_version, access_flags, Ghost(s), Ghost(q6))?;
        let ghost q7 = match spec_counted(method_item(constant_pool@, major_version, flags), s, q6) {
            Some((_, e)) => e,
            None => 0,
        };
        let (source_file_name, inner_classes, record_components, bootstrap_methods) = try_parse_attributes(
            &constant_pool,
            &mut buf,
            major_version,
            Ghost(s),
            Ghost(q7),
        )?;
        if constant_pool.has_dynamic() && bootstrap_methods.is_none() {
            return None;
        }
        if crate::buffers::bytes_remaining(&buf) != 0 {
            return None;
        }
        Some(
            Class {
                minor_version,
                major_version,
                access_flags,
                constant_pool,
                name,
                super_class,
                interfaces,
                fields,
                methods,
                source_file_name,
                inner_classes: unwrap_list(inner_classes),
                record_components: unwrap_list(record_components),
                bootstrap_methods: unwrap_list(bootstrap_methods),
            },
        )
    }

    pub fn name(&self) -> (r: &str)
        ensures
            r@ == self@.name,
    {
        istr_as_str(&self.name)
    }

    pub fn major_version(&self) -> (r: u16)
        ensures
            r == self@.major_version,
    {
        self.major_version
    }

    pub fn minor_version(&self) -> (r: u16)
        ensures
            r == self@.minor_version,
    {
        self.minor_version
    }

    pub fn flags(&self) -> (r: u32)
        ensures
            r == self@.access_flags,
    {
        self.access_flags.flags
    }

    pub fn constant_pool(&self) -> (r: &ConstantPool)
        ensures
            r@ == self@.constant_pool,
    {
        &self.constant_pool
    }

    /// The binary name of the superclass; `None` only for
    /// `java/lang/Object`.
    pub fn super_class(&self) -> (r: Option<&str>)
        ensures
            match r {
                Some(v) => self@.super_class == Some(v@),
                None => self@.super_class is None,
            },
    {
        match &self.super_class {
            Some(v) => Some(istr_as_str(v)),
            None => None,
        }
    }

    /// The binary names of the direct superinterfaces.
    pub fn interfaces(&self) -> (r: &[IStr])
        ensures
            names_view(r@) == self@.interfaces,
    {
        self.interfaces.as_slice()
    }

    pub fn fields(&self) -> (r: &[Field])
        ensures
            views(r@) == self@.fields,
    {
        self.fields.as_slice()
    }

    pub fn field_count(&self) -> (r: usize)
        ensures
            r == self@.fields.len(),
    {
        self.fields.len()
    }

    pub fn methods(&self) -> (r: &[Method])
        ensures
            views(r@) == self@.methods,
    {
        self.methods.as_slice()
    }

    pub fn source_file_name(&self) -> (r: Option<&str>)
        ensures
            match r {
                Some(v) => self@.source_file_name == Some(v@),
                None => self@.source_file_name is None,
            },
    {
        match &self.source_file_name {
            Some(v) => Some(istr_as_str(v)),
            None => None,
        }
    }

    pub fn inner_classes(&self) -> (r: &[InnerClassInfo])
        ensures
            views(r@) == self@.inner_classes,
    {
        self.inner_classes.as_slice()
    }

    pub fn record_components(&self) -> (r: &[RecordComponent])
        ensures
            views(r@) == self@.record_components,
    {
        self.record_components.as_slice()
    }

    pub fn bootstrap_methods(&self) -> (r: &[BootstrapMethod])
        ensures
            views(r@) == self@.bootstrap_methods,
    {
        self.bootstrap_methods.as_slice()
    }

    pub fn is_final(&self) -> (r: bool)
        ensures
            r == (self@.access_flags & JVM_ACC_FINAL != 0),
    {
        self.access_flags.flags & JVM_ACC_FINAL != 0
    }

    pub fn is_public(&self) -> (r: bool)
        ensures
            r == (self@.access_flags & JVM_ACC_PUBLIC != 0),
    {
        self.access_flags.flags & JVM_ACC_PUBLIC != 0
    }

    pub fn is_abstract(&self) -> (r: bool)
        ensures
            r == (self@.access_flags & JVM_ACC_ABSTRACT != 0),
    {
        self.access_flags.flags & JVM_ACC_ABSTRACT != 0
    }

    pub fn is_interface(&self) -> (r: bool)
        ensures
            r == (self@.access_flags & JVM_ACC_INTERFACE != 0),
    {
        self.access_flags.flags & JVM_ACC_INTERFACE != 0
    }

    pub fn is_super(&self) -> (r: bool)
        ensures
            r == (self@.access_flags & JVM_ACC_SUPER != 0),
    {
        self.access_flags.flags & JVM_ACC_SUPER != 0
    }

    pub fn is_module(&self) -> (r: bool)
        ensures
            r == (self@.access_flags & JVM_ACC_MODULE != 0),
    {
        self.access_flags.flags & JVM_ACC_MODULE != 0
    }
}

} // verus!
