//! The constant pool of a class file (JVMS 4.4).
//!
//! The pool is read as `constant_pool_count`, then entries until the running
//! index reaches the count; a `long` or `double` entry advances the index by
//! two.  Entries are stored one after the other, so entry `i` (counting from
//! 1) is the `i`-th entry read.  `float` and `double` constants are kept as
//! their IEEE 754 bit patterns.

use bytes::Bytes;
use internship::IStr;
use vstd::prelude::*;
use vstd::utf8::{decode_utf8, valid_utf8};
use crate::reader::{at, read_bytes, read_i32, read_i64, read_u16, read_u32, read_u64, read_u8,
    spec_u16, spec_u32, spec_u64, spec_u8};
use crate::strings::{istr_clone, istr_from_utf8, istr_view};

verus! {

broadcast use vstd::seq_lib::lemma_seq_skip_of_skip;

pub const UTF8_TAG: u8 = 1;
pub const INT_TAG: u8 = 3;
pub const FLOAT_TAG: u8 = 4;
pub const LONG_TAG: u8 = 5;
pub const DOUBLE_TAG: u8 = 6;
pub const CLASS_TAG: u8 = 7;
pub const STRING_TAG: u8 = 8;
pub const FIELD_REF_TAG: u8 = 9;
pub const METHOD_REF_TAG: u8 = 10;
pub const INTERFACE_METHOD_REF_TAG: u8 = 11;
pub const NAME_AND_TYPE_TAG: u8 = 12;
pub const METHOD_HANDLE_TAG: u8 = 15;
pub const METHOD_TYPE_TAG: u8 = 16;
pub const DYNAMIC_TAG: u8 = 17;
pub const INVOKE_DYNAMIC_TAG: u8 = 18;
pub const MODULE_TAG: u8 = 19;
pub const PACKAGE_TAG: u8 = 20;

// ---------------------------------------------------------------------------
// The model
// ---------------------------------------------------------------------------

pub enum SpecPoolConstant {
    Utf8(Seq<char>),
    Int(i32),
    Float(u32),
    Long(i64),
    Double(u64),
    Class { name_index: u16 },
    String { value_index: u16 },
    FieldRef { class_index: u16, nat_index: u16 },
    MethodRef { class_index: u16, nat_index: u16 },
    InterfaceMethodRef { class_index: u16, nat_index: u16 },
    NameAndType { name_index: u16, descriptor_index: u16 },
    MethodHandle { reference_kind: u8, reference_index: u16 },
    MethodType { descriptor_index: u16 },
    Dynamic { bootstrap_method_index: u16, nat_index: u16 },
    InvokeDynamic { bootstrap_method_index: u16, nat_index: u16 },
    Module { name_index: u16 },
    Package { name_index: u16 },
}

/// The tags in the order read, the entries, and whether a `Dynamic` or
/// `InvokeDynamic` entry is among them.
pub struct SpecPool {
    pub tags: Seq<u8>,
    pub constants: Seq<SpecPoolConstant>,
    pub has_dynamic: bool,
}

pub open spec fn has_dynamic_tag(tags: Seq<u8>) -> bool {
    exists|i: int| 0 <= i < tags.len() && (tags[i] == DYNAMIC_TAG || tags[i] == INVOKE_DYNAMIC_TAG)
}

/// A modified-free UTF-8 string: a `u16` length and that many bytes, which
/// must be valid UTF-8.
pub open spec fn spec_utf8(s: Seq<u8>, p: int) -> Option<(Seq<char>, int)> {
    match spec_u16(s, p) {
        Some((len, q)) => if q + len <= s.len() {
            let b = s.subrange(q, q + len);
            if valid_utf8(b) {
                Some((decode_utf8(b), q + len))
            } else {
                None
            }
        } else {
            None
        },
        None => None,
    }
}

/// Two `u16` values in a row.
pub open spec fn spec_u16_pair(s: Seq<u8>, p: int) -> Option<((u16, u16), int)> {
    match spec_u16(s, p) {
        Some((a, q)) => match spec_u16(s, q) {
            Some((b, e)) => Some(((a, b), e)),
            None => None,
        },
        None => None,
    }
}

/// The body of an entry with the given tag, which starts at `p`.
pub open spec fn spec_pool_constant(tag: u8, s: Seq<u8>, p: int) -> Option<(SpecPoolConstant, int)> {
    if tag == UTF8_TAG {
        match spec_utf8(s, p) {
            Some((v, e)) => Some((SpecPoolConstant::Utf8(v), e)),
            None => None,
        }
    } else if tag == INT_TAG {
        match spec_u32(s, p) {
            Some((v, e)) => Some((SpecPoolConstant::Int(v as i32), e)),
            None => None,
        }
    } else if tag == FLOAT_TAG {
        match spec_u32(s, p) {
            Some((v, e)) => Some((SpecPoolConstant::Float(v), e)),
            None => None,
        }
    } else if tag == LONG_TAG {
        match spec_u64(s, p) {
            Some((v, e)) => Some((SpecPoolConstant::Long(v as i64), e)),
            None => None,
        }
    } else if tag == DOUBLE_TAG {
        match spec_u64(s, p) {
            Some((v, e)) => Some((SpecPoolConstant::Double(v), e)),
            None => None,
        }
    } else if tag == CLASS_TAG {
        match spec_u16(s, p) {
            Some((v, e)) => Some((SpecPoolConstant::Class { name_index: v }, e)),
            None => None,
        }
    } else if tag == STRING_TAG {
        match spec_u16(s, p) {
            Some((v, e)) => Some((SpecPoolConstant::String { value_index: v }, e)),
            None => None,
        }
    } else if tag == FIELD_REF_TAG {
        match spec_u16_pair(s, p) {
            Some(((a, b), e)) => Some((SpecPoolConstant::FieldRef { class_index: a, nat_index: b }, e)),
            None => None,
        }
    } else if tag == METHOD_REF_TAG {
        match spec_u16_pair(s, p) {
            Some(((a, b), e)) => Some((SpecPoolConstant::MethodRef { class_index: a, nat_index: b }, e)),
            None => None,
        }
    } else if tag == INTERFACE_METHOD_REF_TAG {
        match spec_u16_pair(s, p) {
            Some(((a, b), e)) => Some(
                (SpecPoolConstant::InterfaceMethodRef { class_index: a, nat_index: b }, e),
            ),
            None => None,
        }
    } else if tag == NAME_AND_TYPE_TAG {
        match spec_u16_pair(s, p) {
            Some(((a, b), e)) => Some(
                (SpecPoolConstant::NameAndType { name_index: a, descriptor_index: b }, e),
            ),
            None => None,
        }
    } else if tag == METHOD_HANDLE_TAG {
        match spec_u8(s, p) {
            Some((k, q)) => match spec_u16(s, q) {
                Some((i, e)) => Some(
                    (SpecPoolConstant::MethodHandle { reference_kind: k, reference_index: i }, e),
                ),
                None => None,
            },
            None => None,
        }
    } else if tag == METHOD_TYPE_TAG {
        match spec_u16(s, p) {
            Some((v, e)) => Some((SpecPoolConstant::MethodType { descriptor_index: v }, e)),
            None => None,
        }
    } else if tag == DYNAMIC_TAG {
        match spec_u16_pair(s, p) {
            Some(((a, b), e)) => Some(
                (SpecPoolConstant::Dynamic { bootstrap_method_index: a, nat_index: b }, e),
            ),
            None => None,
        }
    } else if tag == INVOKE_DYNAMIC_TAG {
        match spec_u16_pair(s, p) {
            Some(((a, b), e)) => Some(
                (SpecPoolConstant::InvokeDynamic { bootstrap_method_index: a, nat_index: b }, e),
            ),
            None => None,
        }
    } else if tag == MODULE_TAG {
        match spec_u16(s, p) {
            Some((v, e)) => Some((SpecPoolConstant::Module { name_index: v }, e)),
            None => None,
        }
    } else if tag == PACKAGE_TAG {
        match spec_u16(s, p) {
            Some((v, e)) => Some((SpecPoolConstant::Package { name_index: v }, e)),
            None => None,
        }
    } else {
        None
    }
}

/// The entries from running index `index` until `count`, appended to those
/// already read.  The index is a `u16`: a `long` or `double` that would carry
/// it past 65535 is a failure.
pub open spec fn spec_pool_entries(
    s: Seq<u8>,
    p: int,
    index: int,
    count: int,
    tags: Seq<u8>,
    constants: Seq<SpecPoolConstant>,
) -> Option<(Seq<u8>, Seq<SpecPoolConstant>, int)>
    decreases count + 2 - index,
{
    if index >= count {
        Some((tags, constants, p))
    } else {
        match spec_u8(s, p) {
            Some((tag, q)) => match spec_pool_constant(tag, s, q) {
                Some((c, e)) => {
                    let next = if tag == LONG_TAG || tag == DOUBLE_TAG {
                        index + 2
                    } else {
                        index + 1
                    };
                    if next > 0xFFFF {
                        None
                    } else {
                        spec_pool_entries(s, e, next, count, tags.push(tag), constants.push(c))
                    }
                },
                None => None,
            },
            None => None,
        }
    }
}

/// The constant pool that starts at `p`, and where it ends.
pub open spec fn spec_parse_pool(s: Seq<u8>, p: int) -> Option<(SpecPool, int)> {
    match spec_u16(s, p) {
        Some((count, q)) => match spec_pool_entries(s, q, 1, count as int, seq![], seq![]) {
            Some((tags, constants, e)) => Some(
                (SpecPool { tags, constants, has_dynamic: has_dynamic_tag(tags) }, e),
            ),
            None => None,
        },
        None => None,
    }
}

// -- lookups in the model -------------------------------------------------------

/// Entry `i`, counting from 1.
pub open spec fn pool_entry(pool: SpecPool, i: int) -> Option<SpecPoolConstant> {
    if 1 <= i <= pool.constants.len() {
        Some(pool.constants[i - 1])
    } else {
        None
    }
}

pub open spec fn pool_tag(pool: SpecPool, i: int) -> Option<u8> {
    if 1 <= i <= pool.tags.len() {
        Some(pool.tags[i - 1])
    } else {
        None
    }
}

pub open spec fn pool_utf8(pool: SpecPool, i: int) -> Option<Seq<char>> {
    match pool_entry(pool, i) {
        Some(SpecPoolConstant::Utf8(v)) => Some(v),
        _ => None,
    }
}

pub open spec fn pool_class_index(pool: SpecPool, i: int) -> Option<u16> {
    match pool_entry(pool, i) {
        Some(SpecPoolConstant::Class { name_index }) => Some(name_index),
        _ => None,
    }
}

pub open spec fn pool_string_index(pool: SpecPool, i: int) -> Option<u16> {
    match pool_entry(pool, i) {
        Some(SpecPoolConstant::String { value_index }) => Some(value_index),
        _ => None,
    }
}

/// The name of class entry `i`; a name index of 0 names nothing.
pub open spec fn pool_class_name(pool: SpecPool, i: int) -> Option<Seq<char>> {
    match pool_class_index(pool, i) {
        Some(n) => if n == 0 {
            None
        } else {
            pool_utf8(pool, n as int)
        },
        None => None,
    }
}

/// The characters of string entry `i`; a value index of 0 names nothing.
pub open spec fn pool_string(pool: SpecPool, i: int) -> Option<Seq<char>> {
    match pool_string_index(pool, i) {
        Some(n) => if n == 0 {
            None
        } else {
            pool_utf8(pool, n as int)
        },
        None => None,
    }
}

/// A UTF-8 entry looked up by an index read from the file; index 0 fails.
pub open spec fn pool_utf8_at(pool: SpecPool, i: int) -> Option<Seq<char>> {
    if i == 0 {
        None
    } else {
        pool_utf8(pool, i)
    }
}

/// A class name looked up by an index read from the file; index 0 fails.
pub open spec fn pool_class_name_at(pool: SpecPool, i: int) -> Option<Seq<char>> {
    if i == 0 {
        None
    } else {
        pool_class_name(pool, i)
    }
}

/// A string looked up by an index read from the file; index 0 fails.
pub open spec fn pool_string_at(pool: SpecPool, i: int) -> Option<Seq<char>> {
    if i == 0 {
        None
    } else {
        pool_string(pool, i)
    }
}

/// The two indices of a name-and-type entry.
pub open spec fn pool_nat_indices(pool: SpecPool, i: int) -> Option<(u16, u16)> {
    match pool_entry(pool, i) {
        Some(SpecPoolConstant::NameAndType { name_index, descriptor_index }) => Some(
            (name_index, descriptor_index),
        ),
        _ => None,
    }
}

/// The class and name-and-type indices of a field reference.
pub open spec fn pool_field_ref_indices(pool: SpecPool, i: int) -> Option<(u16, u16)> {
    match pool_entry(pool, i) {
        Some(SpecPoolConstant::FieldRef { class_index, nat_index }) => Some((class_index, nat_index)),
        _ => None,
    }
}

/// The class and name-and-type indices of a method or interface method
/// reference, and whether it is the latter.
pub open spec fn pool_method_ref_indices(pool: SpecPool, i: int) -> Option<(u16, u16, bool)> {
    match pool_entry(pool, i) {
        Some(SpecPoolConstant::MethodRef { class_index, nat_index }) => Some(
            (class_index, nat_index, false),
        ),
        Some(SpecPoolConstant::InterfaceMethodRef { class_index, nat_index }) => Some(
            (class_index, nat_index, true),
        ),
        _ => None,
    }
}

/// The kind and reference index of a method handle entry.
pub open spec fn pool_method_handle(pool: SpecPool, i: int) -> Option<(u8, u16)> {
    match pool_entry(pool, i) {
        Some(SpecPoolConstant::MethodHandle { reference_kind, reference_index }) => Some(
            (reference_kind, reference_index),
        ),
        _ => None,
    }
}

/// The descriptor index of a method type entry.
pub open spec fn pool_method_type_index(pool: SpecPool, i: int) -> Option<u16> {
    match pool_entry(pool, i) {
        Some(SpecPoolConstant::MethodType { descriptor_index }) => Some(descriptor_index),
        _ => None,
    }
}

// ---------------------------------------------------------------------------
// The executable pool
// ---------------------------------------------------------------------------

#[derive(Debug)]
pub enum PoolConstant {
    Utf8(IStr),
    Int(i32),
    Float(u32),
    Long(i64),
    Double(u64),
    Class { name_index: u16 },
    String { value_index: u16 },
    FieldRef { class_index: u16, nat_index: u16 },
    MethodRef { class_index: u16, nat_index: u16 },
    InterfaceMethodRef { class_index: u16, nat_index: u16 },
    NameAndType { name_index: u16, descriptor_index: u16 },
    MethodHandle { reference_kind: u8, reference_index: u16 },
    MethodType { descriptor_index: u16 },
    Dynamic { bootstrap_method_index: u16, nat_index: u16 },
    InvokeDynamic { bootstrap_method_index: u16, nat_index: u16 },
    Module { name_index: u16 },
    Package { name_index: u16 },
}

impl View for PoolConstant {
    type V = SpecPoolConstant;

    open spec fn view(&self) -> SpecPoolConstant {
        match self {
            PoolConstant::Utf8(v) => SpecPoolConstant::Utf8(istr_view(*v)),
            PoolConstant::Int(v) => SpecPoolConstant::Int(*v),
            PoolConstant::Float(v) => SpecPoolConstant::Float(*v),
            PoolConstant::Long(v) => SpecPoolConstant::Long(*v),
            PoolConstant::Double(v) => SpecPoolConstant::Double(*v),
            PoolConstant::Class { name_index } => SpecPoolConstant::Class { name_index: *name_index },
            PoolConstant::String { value_index } => SpecPoolConstant::String {
                value_index: *value_index,
            },
            PoolConstant::FieldRef { class_index, nat_index } => SpecPoolConstant::FieldRef {
                class_index: *class_index,
                nat_index: *nat_index,
            },
            PoolConstant::MethodRef { class_index, nat_index } => SpecPoolConstant::MethodRef {
                class_index: *class_index,
                nat_index: *nat_index,
            },
            PoolConstant::InterfaceMethodRef {
                class_index,
                nat_index,
            } => SpecPoolConstant::InterfaceMethodRef {
                class_index: *class_index,
                nat_index: *nat_index,
            },
            PoolConstant::NameAndType {
                name_index,
                descriptor_index,
            } => SpecPoolConstant::NameAndType {
                name_index: *name_index,
                descriptor_index: *descriptor_index,
            },
            PoolConstant::MethodHandle {
                reference_kind,
                reference_index,
            } => SpecPoolConstant::MethodHandle {
                reference_kind: *reference_kind,
                reference_index: *reference_index,
            },
            PoolConstant::MethodType { descriptor_index } => SpecPoolConstant::MethodType {
                descriptor_index: *descriptor_index,
            },
            PoolConstant::Dynamic {
                bootstrap_method_index,
                nat_index,
            } => SpecPoolConstant::Dynamic {
                bootstrap_method_index: *bootstrap_method_index,
                nat_index: *nat_index,
            },
            PoolConstant::InvokeDynamic {
                bootstrap_method_index,
                nat_index,
            } => SpecPoolConstant::InvokeDynamic {
                bootstrap_method_index: *bootstrap_method_index,
                nat_index: *nat_index,
            },
            PoolConstant::Module { name_index } => SpecPoolConstant::Module { name_index: *name_index },
            PoolConstant::Package { name_index } => SpecPoolConstant::Package {
                name_index: *name_index,
            },
        }
    }
}

pub open spec fn constants_view(v: Seq<PoolConstant>) -> Seq<SpecPoolConstant> {
    v.map_values(|c: PoolConstant| c@)
}

fn read_u16_pair(buf: &mut Bytes, Ghost(s): Ghost<Seq<u8>>, Ghost(p): Ghost<int>) -> (r: Option<(u16, u16)>)
    requires
        at(*old(buf), s, p),
    ensures
        match r {
            Some((a, b)) => spec_u16_pair(s, p) == Some(((a, b), p + 4)) && at(*final(buf), s, p + 4),
            None => spec_u16_pair(s, p) is None,
        },
{
    let a = read_u16(buf, Ghost(s), Ghost(p))?;
    let b = read_u16(buf, Ghost(s), Ghost(p + 2))?;
    Some((a, b))
}

/// Reads a length-prefixed UTF-8 string; the bytes must be valid UTF-8
/// and all present (see `try_parse_utf8`).
pub fn parse_utf8(buf: &mut Bytes, Ghost(s): Ghost<Seq<u8>>, Ghost(p): Ghost<int>) -> (r: IStr)
    requires
        at(*old(buf), s, p),
        spec_utf8(s, p) is Some,
    ensures
        spec_utf8(s, p) matches Some((w, e)) && w == istr_view(r) && at(*final(buf), s, e),
{
    match try_parse_utf8(buf, Ghost(s), Ghost(p)) {
        Some(v) => v,
        None => vstd::pervasive::unreached(),
    }
}

/// Reads a length-prefixed string as `parse_utf8` does, answering `None`
/// where it is cut short or not valid UTF-8.
pub fn try_parse_utf8(buf: &mut Bytes, Ghost(s): Ghost<Seq<u8>>, Ghost(p): Ghost<int>) -> (r: Option<IStr>)
    requires
        at(*old(buf), s, p),
    ensures
        match r {
            Some(v) => spec_utf8(s, p) matches Some((w, e)) && w == istr_view(v) && at(
                *final(buf),
                s,
                e,
            ),
            None => spec_utf8(s, p) is None,
        },
{
    let length = read_u16(buf, Ghost(s), Ghost(p))?;
    let bytes = read_bytes(buf, length as usize, Ghost(s), Ghost(p + 2))?;
    istr_from_utf8(bytes.as_slice())
}

impl PoolConstant {
    /// Reads the body of an entry with tag `tag`.
    /// The input must be well-formed (see `try_parse`).
    pub fn parse(tag: u8, buf: &mut Bytes, Ghost(s): Ghost<Seq<u8>>, Ghost(p): Ghost<int>) -> (r: PoolConstant)
        requires
            at(*old(buf), s, p),
            spec_pool_constant(tag, s, p) is Some,
        ensures
            spec_pool_constant(tag, s, p) matches Some((v, e)) && v == r@ && at(*final(buf), s, e),
    {
        match PoolConstant::try_parse(tag, buf, Ghost(s), Ghost(p)) {
            Some(v) => v,
            None => vstd::pervasive::unreached(),
        }
    }

    /// Reads as `parse` does, answering `None` where the input is not
    /// well-formed.
    pub fn try_parse(tag: u8, buf: &mut Bytes, Ghost(s): Ghost<Seq<u8>>, Ghost(p): Ghost<int>) -> (r: Option<PoolConstant>)
        requires
            at(*old(buf), s, p),
        ensures
            match r {
                Some(c) => spec_pool_constant(tag, s, p) matches Some((v, e)) && v == c@ && at(
                    *final(buf),
                    s,
                    e,
                ),
                None => spec_pool_constant(tag, s, p) is None,
            },
    {
        if tag == UTF8_TAG {
            Some(PoolConstant::Utf8(try_parse_utf8(buf, Ghost(s), Ghost(p))?))
        } else if tag == INT_TAG {
            Some(PoolConstant::Int(read_i32(buf, Ghost(s), Ghost(p))?))
        } else if tag == FLOAT_TAG {
            Some(PoolConstant::Float(read_u32(buf, Ghost(s), Ghost(p))?))
        } else if tag == LONG_TAG {
            Some(PoolConstant::Long(read_i64(buf, Ghost(s), Ghost(p))?))
        } else if tag == DOUBLE_TAG {
            Some(PoolConstant::Double(read_u64(buf, Ghost(s), Ghost(p))?))
        } else if tag == CLASS_TAG {
            Some(PoolConstant::Class { name_index: read_u16(buf, Ghost(s), Ghost(p))? })
        } else if tag == STRING_TAG {
            Some(PoolConstant::String { value_index: read_u16(buf, Ghost(s), Ghost(p))? })
        } else if tag == FIELD_REF_TAG {
            let (a, b) = read_u16_pair(buf, Ghost(s), Ghost(p))?;
            Some(PoolConstant::FieldRef { class_index: a, nat_index: b })
        } else if tag == METHOD_REF_TAG {
            let (a, b) = read_u16_pair(buf, Ghost(s), Ghost(p))?;
            Some(PoolConstant::MethodRef { class_index: a, nat_index: b })
        } else if tag == INTERFACE_METHOD_REF_TAG {
            let (a, b) = read_u16_pair(buf, Ghost(s), Ghost(p))?;
            Some(PoolConstant::InterfaceMethodRef { class_index: a, nat_index: b })
        } else if tag == NAME_AND_TYPE_TAG {
            let (a, b) = read_u16_pair(buf, Ghost(s), Ghost(p))?;
            Some(PoolConstant::NameAndType { name_index: a, descriptor_index: b })
        } else if tag == METHOD_HANDLE_TAG {
            let k = read_u8(buf, Ghost(s), Ghost(p))?;
            let i = read_u16(buf, Ghost(s), Ghost(p + 1))?;
            Some(PoolConstant::MethodHandle { reference_kind: k, reference_index: i })
        } else if tag == METHOD_TYPE_TAG {
            Some(PoolConstant::MethodType { descriptor_index: read_u16(buf, Ghost(s), Ghost(p))? })
        } else if tag == DYNAMIC_TAG {
            let (a, b) = read_u16_pair(buf, Ghost(s), Ghost(p))?;
            Some(PoolConstant::Dynamic { bootstrap_method_index: a, nat_index: b })
        } else if tag == INVOKE_DYNAMIC_TAG {
            let (a, b) = read_u16_pair(buf, Ghost(s), Ghost(p))?;
            Some(PoolConstant::InvokeDynamic { bootstrap_method_index: a, nat_index: b })
        } else if tag == MODULE_TAG {
            Some(PoolConstant::Module { name_index: read_u16(buf, Ghost(s), Ghost(p))? })
        } else if tag == PACKAGE_TAG {
            Some(PoolConstant::Package { name_index: read_u16(buf, Ghost(s), Ghost(p))? })
        } else {
            None
        }
    }

    /// A copy of this entry.
    pub fn copy(&self) -> (r: PoolConstant)
        ensures
            r@ == self@,
    {
        match self {
            PoolConstant::Utf8(v) => PoolConstant::Utf8(istr_clone(v)),
            PoolConstant::Int(v) => PoolConstant::Int(*v),
            PoolConstant::Float(v) => PoolConstant::Float(*v),
            PoolConstant::Long(v) => PoolConstant::Long(*v),
            PoolConstant::Double(v) => PoolConstant::Double(*v),
            PoolConstant::Class { name_index } => PoolConstant::Class { name_index: *name_index },
            PoolConstant::String { value_index } => PoolConstant::String { value_index: *value_index },
            PoolConstant::FieldRef { class_index, nat_index } => PoolConstant::FieldRef {
                class_index: *class_index,
                nat_index: *nat_index,
            },
            PoolConstant::MethodRef { class_index, nat_index } => PoolConstant::MethodRef {
                class_index: *class_index,
                nat_index: *nat_index,
            },
            PoolConstant::InterfaceMethodRef { class_index, nat_index } => PoolConstant::InterfaceMethodRef {
                class_index: *class_index,
                nat_index: *nat_index,
            },
            PoolConstant::NameAndType { name_index, descriptor_index } => PoolConstant::NameAndType {
                name_index: *name_index,
                descriptor_index: *descriptor_index,
            },
            PoolConstant::MethodHandle { reference_kind, reference_index } => PoolConstant::MethodHandle {
                reference_kind: *reference_kind,
                reference_index: *reference_index,
            },
            PoolConstant::MethodType { descriptor_index } => PoolConstant::MethodType {
                descriptor_index: *descriptor_index,
            },
            PoolConstant::Dynamic { bootstrap_method_index, nat_index } => PoolConstant::Dynamic {
                bootstrap_method_index: *bootstrap_method_index,
                nat_index: *nat_index,
            },
            PoolConstant::InvokeDynamic { bootstrap_method_index, nat_index } => PoolConstant::InvokeDynamic {
                bootstrap_method_index: *bootstrap_method_index,
                nat_index: *nat_index,
            },
            PoolConstant::Module { name_index } => PoolConstant::Module { name_index: *name_index },
            PoolConstant::Package { name_index } => PoolConstant::Package { name_index: *name_index },
        }
    }
}

/// The constant pool: the tag of each entry and the entry itself.
#[derive(Debug)]
pub struct ConstantPool {
    tags: Vec<u8>,
    constants: Vec<PoolConstant>,
    has_dynamic: bool,
}

impl View for ConstantPool {
    type V = SpecPool;

    closed spec fn view(&self) -> SpecPool {
        SpecPool {
            tags: self.tags@,
            constants: constants_view(self.constants@),
            has_dynamic: self.has_dynamic,
        }
    }
}

impl ConstantPool {
    /// Reads a constant pool.
    /// The input must be well-formed (see `try_parse`).
    pub fn parse(buf: &mut Bytes, Ghost(s): Ghost<Seq<u8>>, Ghost(p): Ghost<int>) -> (r: ConstantPool)
        requires
            at(*old(buf), s, p),
            spec_parse_pool(s, p) is Some,
        ensures
            spec_parse_pool(s, p) matches Some((v, e)) && v == r@ && at(*final(buf), s, e),
    {
        match ConstantPool::try_parse(buf, Ghost(s), Ghost(p)) {
            Some(v) => v,
            None => vstd::pervasive::unreached(),
        }
    }

    /// Reads as `parse` does, answering `None` where the input is not
    /// well-formed.
    pub fn try_parse(buf: &mut Bytes, Ghost(s): Ghost<Seq<u8>>, Ghost(p): Ghost<int>) -> (r: Option<ConstantPool>)
        requires
            at(*old(buf), s, p),
        ensures
            match r {
                Some(pool) => spec_parse_pool(s, p) matches Some((v, e)) && v == pool@ && at(
                    *final(buf),
                    s,
                    e,
                ),
                None => spec_parse_pool(s, p) is None,
            },
    {
        let count = read_u16(buf, Ghost(s), Ghost(p))?;
        let mut tags: Vec<u8> = Vec::new();
        let mut constants: Vec<PoolConstant> = Vec::new();
        let mut index: u16 = 1;
        let mut has_dynamic = false;
        let ghost mut q = p + 2;
        proof {
            assert(tags@ =~= Seq::<u8>::empty());
            assert(constants_view(constants@) =~= Seq::<SpecPoolConstant>::empty());
        }
        while index < count
            invariant
                at(*buf, s, q),
                spec_pool_entries(s, p + 2, 1, count as int, seq![], seq![]) == spec_pool_entries(
                    s,
                    q,
                    index as int,
                    count as int,
                    tags@,
                    constants_view(constants@),
                ),
                has_dynamic == has_dynamic_tag(tags@),
                spec_parse_pool(s, p) == (match spec_pool_entries(
                    s,
                    p + 2,
                    1,
                    count as int,
                    seq![],
                    seq![],
                ) {
                    Some((t, c, e)) => Some(
                        (SpecPool { tags: t, constants: c, has_dynamic: has_dynamic_tag(t) }, e),
                    ),
                    None => None,
                }),
            decreases count as int + 2 - index as int,
        {
            let tag = read_u8(buf, Ghost(s), Ghost(q))?;
            let c = PoolConstant::try_parse(tag, buf, Ghost(s), Ghost(q + 1))?;
            let ghost e = match spec_pool_constant(tag, s, q + 1) {
                Some((_, e)) => e,
                None => 0,
            };
            if tag == DYNAMIC_TAG || tag == INVOKE_DYNAMIC_TAG {
                has_dynamic = true;
            }
            let ghost old_tags = tags@;
            let ghost old_constants = constants@;
            tags.push(tag);
            constants.push(c);
            proof {
                q = e;
                assert(constants_view(constants@) =~= constants_view(old_constants).push(c@));
                if has_dynamic_tag(old_tags) {
                    let i = choose|i: int|
                        0 <= i < old_tags.len() && (old_tags[i] == DYNAMIC_TAG || old_tags[i]
                            == INVOKE_DYNAMIC_TAG);
                    assert(tags@[i] == old_tags[i]);
                }
                if tag == DYNAMIC_TAG || tag == INVOKE_DYNAMIC_TAG {
                    assert(tags@[tags@.len() - 1] == tag);
                }
                if has_dynamic_tag(tags@) {
                    let i = choose|i: int|
                        0 <= i < tags@.len() && (tags@[i] == DYNAMIC_TAG || tags@[i]
                            == INVOKE_DYNAMIC_TAG);
                    if i < old_tags.len() {
                        assert(old_tags[i] == tags@[i]);
                    }
                }
            }
            if tag == LONG_TAG || tag == DOUBLE_TAG {
                if index > 0xFFFF - 2 {
                    return None;
                }
                index = index + 2;
            } else {
                index = index + 1;
            }
        }
        Some(ConstantPool { tags, constants, has_dynamic })
    }

    /// Whether a `Dynamic` or `InvokeDynamic` entry was read.
    pub fn has_dynamic(&self) -> (r: bool)
        ensures
            r == self@.has_dynamic,
    {
        self.has_dynamic
    }

    /// The number of entries read.
    pub fn len(&self) -> (r: usize)
        ensures
            r == self@.tags.len(),
    {
        self.tags.len()
    }

    /// Whether `index` is below the number of entries read.
    pub fn has(&self, index: usize) -> (r: bool)
        ensures
            r == (index < self@.tags.len()),
    {
        index < self.tags.len()
    }

    /// The tag of entry `index`.
    pub fn get_tag(&self, index: usize) -> (r: Option<u8>)
        requires
            index >= 1,
        ensures
            r == pool_tag(self@, index as int),
    {
        if index - 1 < self.tags.len() {
            Some(self.tags[index - 1])
        } else {
            None
        }
    }

    fn get(&self, index: usize) -> (r: Option<&PoolConstant>)
        requires
            index >= 1,
        ensures
            match r {
                Some(c) => pool_entry(self@, index as int) == Some(c@),
                None => pool_entry(self@, index as int) is None,
            },
    {
        if index - 1 < self.constants.len() {
            Some(&self.constants[index - 1])
        } else {
            None
        }
    }

    /// The string of UTF-8 entry `index`.
    pub fn get_utf8(&self, index: usize) -> (r: Option<IStr>)
        requires
            index >= 1,
        ensures
            match r {
                Some(v) => pool_utf8(self@, index as int) == Some(istr_view(v)),
                None => pool_utf8(self@, index as int) is None,
            },
    {
        match self.get(index) {
            Some(PoolConstant::Utf8(v)) => Some(istr_clone(v)),
            _ => None,
        }
    }

    pub fn get_int(&self, index: usize) -> (r: Option<i32>)
        requires
            index >= 1,
        ensures
            r == (match pool_entry(self@, index as int) {
                Some(SpecPoolConstant::Int(v)) => Some(v),
                _ => None,
            }),
    {
        match self.get(index) {
            Some(PoolConstant::Int(v)) => Some(*v),
            _ => None,
        }
    }

    /// The bits of `float` entry `index`.
    pub fn get_float_bits(&self, index: usize) -> (r: Option<u32>)
        requires
            index >= 1,
        ensures
            r == (match pool_entry(self@, index as int) {
                Some(SpecPoolConstant::Float(v)) => Some(v),
                _ => None,
            }),
    {
        match self.get(index) {
            Some(PoolConstant::Float(v)) => Some(*v),
            _ => None,
        }
    }

    pub fn get_long(&self, index: usize) -> (r: Option<i64>)
        requires
            index >= 1,
        ensures
            r == (match pool_entry(self@, index as int) {
                Some(SpecPoolConstant::Long(v)) => Some(v),
                _ => None,
            }),
    {
        match self.get(index) {
            Some(PoolConstant::Long(v)) => Some(*v),
            _ => None,
        }
    }

    /// The bits of `double` entry `index`.
    pub fn get_double_bits(&self, index: usize) -> (r: Option<u64>)
        requires
            index >= 1,
        ensures
            r == (match pool_entry(self@, index as int) {
                Some(SpecPoolConstant::Double(v)) => Some(v),
                _ => None,
            }),
    {
        match self.get(index) {
            Some(PoolConstant::Double(v)) => Some(*v),
            _ => None,
        }
    }

    fn get_class_index(&self, index: usize) -> (r: Option<u16>)
        requires
            index >= 1,
        ensures
            r == pool_class_index(self@, index as int),
    {
        match self.get(index) {
            Some(PoolConstant::Class { name_index }) => Some(*name_index),
            _ => None,
        }
    }

    fn get_string_index(&self, index: usize) -> (r: Option<u16>)
        requires
            index >= 1,
        ensures
            r == pool_string_index(self@, index as int),
    {
        match self.get(index) {
            Some(PoolConstant::String { value_index }) => Some(*value_index),
            _ => None,
        }
    }

    pub fn get_method_type_index(&self, index: usize) -> (r: Option<u16>)
        requires
            index >= 1,
        ensures
            r == pool_method_type_index(self@, index as int),
    {
        match self.get(index) {
            Some(PoolConstant::MethodType { descriptor_index }) => Some(*descriptor_index),
            _ => None,
        }
    }

    pub fn get_nat_indices(&self, index: usize) -> (r: Option<(u16, u16)>)
        requires
            index >= 1,
        ensures
            r == pool_nat_indices(self@, index as int),
    {
        match self.get(index) {
            Some(PoolConstant::NameAndType { name_index, descriptor_index }) => Some(
                (*name_index, *descriptor_index),
            ),
            _ => None,
        }
    }

    pub fn get_field_ref_indices(&self, index: usize) -> (r: Option<(u16, u16)>)
        requires
            index >= 1,
        ensures
            r == pool_field_ref_indices(self@, index as int),
    {
        match self.get(index) {
            Some(PoolConstant::FieldRef { class_index, nat_index }) => Some((*class_index, *nat_index)),
            _ => None,
        }
    }

    /// The class and name-and-type indices of a method reference, and
    /// whether it refers to an interface method.
    pub fn get_unresolved_method_ref(&self, index: usize) -> (r: Option<(u16, u16, bool)>)
        requires
            index >= 1,
        ensures
            r == pool_method_ref_indices(self@, index as int),
    {
        match self.get(index) {
            Some(PoolConstant::MethodRef { class_index, nat_index }) => Some(
                (*class_index, *nat_index, false),
            ),
            Some(PoolConstant::InterfaceMethodRef { class_index, nat_index }) => Some(
                (*class_index, *nat_index, true),
            ),
            _ => None,
        }
    }

    /// The kind and reference index of a method handle entry.
    pub fn get_unresolved_method_handle(&self, index: usize) -> (r: Option<(u8, u16)>)
        requires
            index >= 1,
        ensures
            r == pool_method_handle(self@, index as int),
    {
        match self.get(index) {
            Some(PoolConstant::MethodHandle { reference_kind, reference_index }) => Some(
                (*reference_kind, *reference_index),
            ),
            _ => None,
        }
    }

    /// The name of class entry `index`.
    pub fn get_class_name(&self, index: usize) -> (r: Option<IStr>)
        requires
            index >= 1,
            pool_class_index(self@, index as int) != Some(0u16),
        ensures
            match r {
                Some(v) => pool_class_name(self@, index as int) == Some(istr_view(v)),
                None => pool_class_name(self@, index as int) is None,
            },
    {
        match self.get_class_index(index) {
            Some(n) => self.get_utf8(n as usize),
            None => None,
        }
    }

    /// The characters of string entry `index`.
    pub fn get_string(&self, index: usize) -> (r: Option<IStr>)
        requires
            index >= 1,
            pool_string_index(self@, index as int) != Some(0u16),
        ensures
            match r {
                Some(v) => pool_string(self@, index as int) == Some(istr_view(v)),
                None => pool_string(self@, index as int) is None,
            },
    {
        match self.get_string_index(index) {
            Some(n) => self.get_utf8(n as usize),
            None => None,
        }
    }

    /// A UTF-8 entry named by an index read from a class file; index 0 and
    /// any other index that names no UTF-8 entry give `None`.
    pub fn utf8_at(&self, index: u16) -> (r: Option<IStr>)
        ensures
            match r {
                Some(v) => pool_utf8_at(self@, index as int) == Some(istr_view(v)),
                None => pool_utf8_at(self@, index as int) is None,
            },
    {
        if index == 0 {
            return None;
        }
        self.get_utf8(index as usize)
    }

    /// A class name named by an index read from a class file.
    pub fn class_name_at(&self, index: u16) -> (r: Option<IStr>)
        ensures
            match r {
                Some(v) => pool_class_name_at(self@, index as int) == Some(istr_view(v)),
                None => pool_class_name_at(self@, index as int) is None,
            },
    {
        if index == 0 {
            return None;
        }
        match self.get_class_index(index as usize) {
            Some(n) => self.utf8_at(n),
            None => None,
        }
    }

    /// A string named by an index read from a class file.
    pub fn string_at(&self, index: u16) -> (r: Option<IStr>)
        ensures
            match r {
                Some(v) => pool_string_at(self@, index as int) == Some(istr_view(v)),
                None => pool_string_at(self@, index as int) is None,
            },
    {
        if index == 0 {
            return None;
        }
        match self.get_string_index(index as usize) {
            Some(n) => self.utf8_at(n),
            None => None,
        }
    }
}

} // verus!
