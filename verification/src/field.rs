//! Fields (JVMS 4.5) and their `ConstantValue`, `Synthetic`, `Deprecated`
//! and `Signature` attributes.

use bytes::Bytes;
use internship::IStr;
use vstd::prelude::*;
use crate::access_flags::AccessFlags;
use crate::constant_pool::{
    CLASS_TAG, ConstantPool, DOUBLE_TAG, FLOAT_TAG, INT_TAG, LONG_TAG, SpecPool, SpecPoolConstant,
    pool_entry, pool_tag, pool_utf8, pool_utf8_at,
};
use crate::constants::{
    JAVA_VERSION_1_5, JVM_ACC_FINAL, JVM_ACC_INTERFACE, JVM_ACC_PRIVATE, JVM_ACC_PROTECTED,
    JVM_ACC_PUBLIC, JVM_ACC_STATIC, JVM_ACC_TRANSIENT, JVM_ACC_VOLATILE,
};
use crate::descriptors::{
    FieldDescriptor, FieldType, SpecFieldDescriptor, SpecFieldType, spec_field_descriptor,
};
use crate::reader::{at, read_u16, read_u32, skip_bytes, spec_skip, spec_u16, spec_u32};
use crate::signature::{spec_generic_signature, try_parse_generic_signature};
use crate::strings::{istr_as_str, istr_clone, istr_eq_str, istr_view};

verus! {

pub const PUBLIC_STATIC_FINAL: u32 = JVM_ACC_PUBLIC | JVM_ACC_STATIC | JVM_ACC_FINAL;

// ---------------------------------------------------------------------------
// The model
// ---------------------------------------------------------------------------

/// A constant value; `float` and `double` values as their bits.
pub enum SpecConstantValue {
    Integer(i32),
    Long(i64),
    Float(u32),
    Double(u64),
    String(Seq<char>),
}

pub struct SpecField {
    pub name: Seq<char>,
    pub descriptor: SpecFieldDescriptor,
    pub access_flags: u32,
    pub generic_signature: Option<Seq<char>>,
    pub constant_value: Option<SpecConstantValue>,
}

pub struct SpecFieldAttributes {
    pub constant_value: Option<SpecConstantValue>,
    pub generic_signature: Option<Seq<char>>,
}

/// The constant that a `ConstantValue` attribute names, for a field with
/// the given descriptor: `None` when it fails, `Some(None)` when the pool
/// holds no value of the expected kind there.  The index must lie strictly
/// between 0 and the number of entries, and its tag must fit the base type
/// of the descriptor; a string constant needs a class entry and a reference
/// type named `Ljava/lang/String;`.
pub open spec fn spec_constant_value(pool: SpecPool, index: u16, descriptor: SpecFieldDescriptor) -> Option<Option<SpecConstantValue>> {
    if !(index > 0 && index < (pool.tags.len() as u16)) {
        None
    } else {
        match pool_tag(pool, index as int) {
            Some(tag) => match descriptor.base {
                SpecFieldType::Long => if tag != LONG_TAG {
                    None
                } else {
                    Some(
                        match pool_entry(pool, index as int) {
                            Some(SpecPoolConstant::Long(v)) => Some(SpecConstantValue::Long(v)),
                            _ => None,
                        },
                    )
                },
                SpecFieldType::Float => if tag != FLOAT_TAG {
                    None
                } else {
                    Some(
                        match pool_entry(pool, index as int) {
                            Some(SpecPoolConstant::Float(v)) => Some(SpecConstantValue::Float(v)),
                            _ => None,
                        },
                    )
                },
                SpecFieldType::Double => if tag != DOUBLE_TAG {
                    None
                } else {
                    Some(
                        match pool_entry(pool, index as int) {
                            Some(SpecPoolConstant::Double(v)) => Some(SpecConstantValue::Double(v)),
                            _ => None,
                        },
                    )
                },
                SpecFieldType::Reference(name) => if !(tag == CLASS_TAG && name
                    == "Ljava/lang/String;"@) {
                    None
                } else {
                    Some(
                        match pool_utf8(pool, index as int) {
                            Some(v) => Some(SpecConstantValue::String(v)),
                            None => None,
                        },
                    )
                },
                _ => if tag != INT_TAG {
                    None
                } else {
                    Some(
                        match pool_entry(pool, index as int) {
                            Some(SpecPoolConstant::Int(v)) => Some(SpecConstantValue::Integer(v)),
                            _ => None,
                        },
                    )
                },
            },
            None => None,
        }
    }
}

/// `n` field attributes from `p`, folded into `acc`.
pub open spec fn spec_field_attributes(
    pool: SpecPool,
    major_version: u16,
    is_static: bool,
    descriptor: SpecFieldDescriptor,
    s: Seq<u8>,
    p: int,
    n: nat,
    acc: SpecFieldAttributes,
) -> Option<(SpecFieldAttributes, int)>
    decreases n,
{
    if n == 0 {
        Some((acc, p))
    } else if !(s.len() - p >= 6) {
        None
    } else {
        match spec_u16(s, p) {
            Some((name_index, q1)) => match pool_utf8_at(pool, name_index as int) {
                Some(name) => match spec_u32(s, q1) {
                    Some((length, q2)) => if is_static && name == "ConstantValue"@ {
                        if acc.constant_value is Some || length != 2 {
                            None
                        } else {
                            match spec_u16(s, q2) {
                                Some((index, e)) => match spec_constant_value(pool, index, descriptor) {
                                    Some(v) => spec_field_attributes(
                                        pool,
                                        major_version,
                                        is_static,
                                        descriptor,
                                        s,
                                        e,
                                        (n - 1) as nat,
                                        SpecFieldAttributes { constant_value: v, ..acc },
                                    ),
                                    None => None,
                                },
                                None => None,
                            }
                        }
                    } else if name == "Synthetic"@ || name == "Deprecated"@ {
                        if length != 0 {
                            None
                        } else {
                            spec_field_attributes(
                                pool,
                                major_version,
                                is_static,
                                descriptor,
                                s,
                                q2,
                                (n - 1) as nat,
                                acc,
                            )
                        }
                    } else if major_version >= JAVA_VERSION_1_5 && name == "Signature"@ {
                        if acc.generic_signature is Some {
                            None
                        } else {
                            match spec_generic_signature(pool, s, q2, length) {
                                Some((g, e)) => spec_field_attributes(
                                    pool,
                                    major_version,
                                    is_static,
                                    descriptor,
                                    s,
                                    e,
                                    (n - 1) as nat,
                                    SpecFieldAttributes { generic_signature: Some(g), ..acc },
                                ),
                                None => None,
                            }
                        }
                    } else {
                        match spec_skip(s, q2, length as int) {
                            Some(e) => spec_field_attributes(
                                pool,
                                major_version,
                                is_static,
                                descriptor,
                                s,
                                e,
                                (n - 1) as nat,
                                acc,
                            ),
                            None => None,
                        }
                    },
                    None => None,
                },
                None => None,
            },
            None => None,
        }
    }
}

/// A field of a class with the given flags.  Every field of an interface
/// must be exactly public, static and final.
pub open spec fn spec_field(pool: SpecPool, major_version: u16, class_flags: u32, s: Seq<u8>, p: int) -> Option<(SpecField, int)> {
    match spec_u16(s, p) {
        Some((flags, q1)) => if class_flags & JVM_ACC_INTERFACE != 0 && flags as u32
            != PUBLIC_STATIC_FINAL {
            None
        } else {
            match spec_u16(s, q1) {
                Some((name_index, q2)) => match pool_utf8_at(pool, name_index as int) {
                    Some(name) => match spec_u16(s, q2) {
                        Some((descriptor_index, q3)) => match pool_utf8_at(
                            pool,
                            descriptor_index as int,
                        ) {
                            Some(d) => match spec_field_descriptor(d) {
                                Some(descriptor) => match spec_u16(s, q3) {
                                    Some((count, q4)) => match spec_field_attributes(
                                        pool,
                                        major_version,
                                        flags as u32 & JVM_ACC_STATIC != 0,
                                        descriptor,
                                        s,
                                        q4,
                                        count as nat,
                                        SpecFieldAttributes { constant_value: None, generic_signature: None },
                                    ) {
                                        Some((attrs, e)) => Some(
                                            (SpecField {
                                                name,
                                                descriptor,
                                                access_flags: flags as u32,
                                                generic_signature: attrs.generic_signature,
                                                constant_value: attrs.constant_value,
                                            }, e),
                                        ),
                                        None => None,
                                    },
                                    None => None,
                                },
                                None => None,
                            },
                            None => None,
                        },
                        None => None,
                    },
                    None => None,
                },
                None => None,
            }
        },
        None => None,
    }
}

pub open spec fn field_item(pool: SpecPool, major_version: u16, class_flags: u32) -> spec_fn(Seq<u8>, int) -> Option<(SpecField, int)> {
    |s: Seq<u8>, p: int| spec_field(pool, major_version, class_flags, s, p)
}

// ---------------------------------------------------------------------------
// Constant values
// ---------------------------------------------------------------------------

/// A `ConstantValue` attribute of a static field, of length 2, whose index
/// gives a constant value, sets the field's constant value to that value:
/// reading it as the one attribute left gives the attributes read so far
/// (which held no constant value) with that constant value, and ends after
/// the attribute.
pub proof fn law_constant_value_attribute(
    pool: SpecPool,
    major_version: u16,
    descriptor: SpecFieldDescriptor,
    s: Seq<u8>,
    p: int,
    acc: SpecFieldAttributes,
    index: u16,
    v: Option<SpecConstantValue>,
)
    requires
        spec_u16(s, p) matches Some((name_index, _)) && pool_utf8_at(pool, name_index as int)
            == Some("ConstantValue"@),
        spec_u32(s, p + 2) == Some((2u32, p + 6)),
        spec_u16(s, p + 6) == Some((index, p + 8)),
        spec_constant_value(pool, index, descriptor) == Some(v),
        acc.constant_value is None,
    ensures
        spec_field_attributes(pool, major_version, true, descriptor, s, p, 1, acc) == Some(
            (SpecFieldAttributes { constant_value: v, ..acc }, p + 8),
        ),
{
    reveal_with_fuel(spec_field_attributes, 2);
}

/// A constant value takes the value of the pool entry it names when the
/// entry's kind fits the field's type: a `long` field gets `Long(v)` from a
/// `Long` entry holding `v`, a `float` or `double` field the bits of its
/// `Float` or `Double` entry, and an `int`, `short`, `char`, `byte` or
/// `boolean` field `Integer(v)` from an `Int` entry; an entry of another
/// kind is refused.
pub proof fn law_constant_value_from_entry(pool: SpecPool, index: u16, descriptor: SpecFieldDescriptor)
    requires
        0 < index < pool.tags.len(),
        pool.tags.len() <= u16::MAX,
    ensures
        ({
            let tag = pool.tags[index - 1];
            let entry = pool_entry(pool, index as int);
            let value = spec_constant_value(pool, index, descriptor);
            &&& descriptor.base is Long ==> (tag == LONG_TAG ==> (entry matches Some(
                SpecPoolConstant::Long(v),
            ) ==> value == Some(Some(SpecConstantValue::Long(v))))) && (tag != LONG_TAG ==> value
                is None)
            &&& descriptor.base is Float ==> (tag == FLOAT_TAG ==> (entry matches Some(
                SpecPoolConstant::Float(v),
            ) ==> value == Some(Some(SpecConstantValue::Float(v))))) && (tag != FLOAT_TAG ==> value
                is None)
            &&& descriptor.base is Double ==> (tag == DOUBLE_TAG ==> (entry matches Some(
                SpecPoolConstant::Double(v),
            ) ==> value == Some(Some(SpecConstantValue::Double(v))))) && (tag != DOUBLE_TAG
                ==> value is None)
            &&& (descriptor.base is Int || descriptor.base is Short || descriptor.base is Char
                || descriptor.base is Byte || descriptor.base is Boolean) ==> (tag == INT_TAG ==> (
            entry matches Some(SpecPoolConstant::Int(v)) ==> value == Some(
                Some(SpecConstantValue::Integer(v)),
            ))) && (tag != INT_TAG ==> value is None)
        }),
{
    assert((pool.tags.len() as u16) as int == pool.tags.len());
}

/// The initial value of a static field.
#[derive(Debug)]
pub enum ConstantValue {
    Integer(i32),
    Long(i64),
    Float(u32),
    Double(u64),
    String(IStr),
}

impl View for ConstantValue {
    type V = SpecConstantValue;

    open spec fn view(&self) -> SpecConstantValue {
        match self {
            ConstantValue::Integer(v) => SpecConstantValue::Integer(*v),
            ConstantValue::Long(v) => SpecConstantValue::Long(*v),
            ConstantValue::Float(v) => SpecConstantValue::Float(*v),
            ConstantValue::Double(v) => SpecConstantValue::Double(*v),
            ConstantValue::String(v) => SpecConstantValue::String(istr_view(*v)),
        }
    }
}

pub open spec fn optional_constant_view(v: Option<ConstantValue>) -> Option<SpecConstantValue> {
    match v {
        Some(v) => Some(v@),
        None => None,
    }
}

pub open spec fn optional_istr_view(v: Option<IStr>) -> Option<Seq<char>> {
    match v {
        Some(v) => Some(istr_view(v)),
        None => None,
    }
}

impl ConstantValue {
    /// The value of a `ConstantValue` attribute at pool index `index` for a
    /// field of type `descriptor`; the index and the entry's tag must fit
    /// the field (see `try_parse`).
    pub fn parse(pool: &ConstantPool, index: u16, descriptor: &FieldDescriptor) -> (r: Option<ConstantValue>)
        requires
            spec_constant_value(pool@, index, descriptor@) is Some,
        ensures
            spec_constant_value(pool@, index, descriptor@) == Some(optional_constant_view(r)),
    {
        match ConstantValue::try_parse(pool, index, descriptor) {
            Some(v) => v,
            None => vstd::pervasive::unreached(),
        }
    }

    /// The value of a `ConstantValue` attribute as `parse` reads it; the
    /// outer `None` answers an index or tag that does not fit the field.
    pub fn try_parse(pool: &ConstantPool, index: u16, descriptor: &FieldDescriptor) -> (r: Option<Option<ConstantValue>>)
        ensures
            match r {
                Some(v) => spec_constant_value(pool@, index, descriptor@) == Some(
                    optional_constant_view(v),
                ),
                None => spec_constant_value(pool@, index, descriptor@) is None,
            },
    {
        if !(index > 0 && index < (pool.len() as u16)) {
            return None;
        }
        let value_type = pool.get_tag(index as usize)?;
        match descriptor.base() {
            FieldType::Long => {
                if value_type != LONG_TAG {
                    return None;
                }
                Some(
                    match pool.get_long(index as usize) {
                        Some(v) => Some(ConstantValue::Long(v)),
                        None => None,
                    },
                )
            },
            FieldType::Float => {
                if value_type != FLOAT_TAG {
                    return None;
                }
                Some(
                    match pool.get_float_bits(index as usize) {
                        Some(v) => Some(ConstantValue::Float(v)),
                        None => None,
                    },
                )
            },
            FieldType::Double => {
                if value_type != DOUBLE_TAG {
                    return None;
                }
                Some(
                    match pool.get_double_bits(index as usize) {
                        Some(v) => Some(ConstantValue::Double(v)),
                        None => None,
                    },
                )
            },
            FieldType::Reference(name) => {
                if !(value_type == CLASS_TAG && istr_eq_str(name, "Ljava/lang/String;")) {
                    return None;
                }
                Some(
                    match pool.get_utf8(index as usize) {
                        Some(v) => Some(ConstantValue::String(v)),
                        None => None,
                    },
                )
            },
            _ => {
                if value_type != INT_TAG {
                    return None;
                }
                Some(
                    match pool.get_int(index as usize) {
                        Some(v) => Some(ConstantValue::Integer(v)),
                        None => None,
                    },
                )
            },
        }
    }
}

// ---------------------------------------------------------------------------
// Fields
// ---------------------------------------------------------------------------

/// A field: name, descriptor, flags, generic signature and constant value.
#[derive(Debug)]
pub struct Field {
    name: IStr,
    descriptor: FieldDescriptor,
    access_flags: AccessFlags,
    generic_signature: Option<IStr>,
    constant_value: Option<ConstantValue>,
}

impl View for Field {
    type V = SpecField;

    closed spec fn view(&self) -> SpecField {
        SpecField {
            name: istr_view(self.name),
            descriptor: self.descriptor@,
            access_flags: self.access_flags.flags,
            generic_signature: optional_istr_view(self.generic_signature),
            constant_value: optional_constant_view(self.constant_value),
        }
    }
}

fn try_parse_attributes(
    pool: &ConstantPool,
    buf: &mut Bytes,
    major_version: u16,
    is_static: bool,
    descriptor: &FieldDescriptor,
    Ghost(s): Ghost<Seq<u8>>,
    Ghost(p): Ghost<int>,
) -> (r: Option<(Option<ConstantValue>, Option<IStr>)>)
    requires
        at(*old(buf), s, p),
    ensures
        match r {
            Some((c, g)) => spec_u16(s, p) matches Some((n, q)) && spec_field_attributes(
                pool@,
                major_version,
                is_static,
                descriptor@,
                s,
                q,
                n as nat,
                SpecFieldAttributes { constant_value: None, generic_signature: None },
            ) matches Some((w, e)) && w == (SpecFieldAttributes {
                constant_value: optional_constant_view(c),
                generic_signature: optional_istr_view(g),
            }) && at(*final(buf), s, e),
            None => !(spec_u16(s, p) matches Some((n, q)) && spec_field_attributes(
                pool@,
                major_version,
                is_static,
                descriptor@,
                s,
                q,
                n as nat,
                SpecFieldAttributes { constant_value: None, generic_signature: None },
            ) is Some),
        },
{
    let mut constant_value: Option<ConstantValue> = None;
    let mut generic_signature: Option<IStr> = None;
    let attributes_count = read_u16(buf, Ghost(s), Ghost(p))?;
    let mut count = attributes_count;
    let ghost mut q = p + 2;
    while count > 0
        invariant
            at(*buf, s, q),
            spec_u16(s, p) == Some((attributes_count, p + 2)),
            spec_field_attributes(
                pool@,
                major_version,
                is_static,
                descriptor@,
                s,
                p + 2,
                attributes_count as nat,
                SpecFieldAttributes { constant_value: None, generic_signature: None },
            ) == spec_field_attributes(
                pool@,
                major_version,
                is_static,
                descriptor@,
                s,
                q,
                count as nat,
                SpecFieldAttributes {
                    constant_value: optional_constant_view(constant_value),
                    generic_signature: optional_istr_view(generic_signature),
                },
            ),
        decreases count,
    {
        if crate::buffers::bytes_remaining(buf) < 6 {
            return None;
        }
        let name_index = read_u16(buf, Ghost(s), Ghost(q))?;
        let attribute_name = pool.utf8_at(name_index)?;
        let attribute_length = read_u32(buf, Ghost(s), Ghost(q + 2))?;
        if is_static && istr_eq_str(&attribute_name, "ConstantValue") {
            if constant_value.is_some() || attribute_length != 2 {
                return None;
            }
            let index = read_u16(buf, Ghost(s), Ghost(q + 6))?;
            constant_value = ConstantValue::try_parse(pool, index, descriptor)?;
            proof {
                q = q + 8;
            }
        } else if istr_eq_str(&attribute_name, "Synthetic") || istr_eq_str(&attribute_name, "Deprecated") {
            if attribute_length != 0 {
                return None;
            }
            proof {
                q = q + 6;
            }
        } else if major_version >= JAVA_VERSION_1_5 && istr_eq_str(&attribute_name, "Signature") {
            if generic_signature.is_some() {
                return None;
            }
            let g = try_parse_generic_signature(pool, buf, attribute_length, Ghost(s), Ghost(q + 6))?;
            proof {
                q = match spec_generic_signature(pool@, s, q + 6, attribute_length) {
                    Some((_, e)) => e,
                    None => q,
                };
            }
            generic_signature = Some(g);
        } else {
            if !skip_bytes(buf, attribute_length as usize, Ghost(s), Ghost(q + 6)) {
                return None;
            }
            proof {
                q = q + 6 + attribute_length;
            }
        }
        count = count - 1;
    }
    Some((constant_value, generic_signature))
}

impl Field {
    /// Reads a field of a class with flags `class_flags`.
    /// The input must be well-formed (see `try_parse`).
    pub fn parse(
        pool: &ConstantPool,
        buf: &mut Bytes,
        major_version: u16,
        class_flags: AccessFlags,
        Ghost(s): Ghost<Seq<u8>>,
        Ghost(p): Ghost<int>,
    ) -> (r: Field)
        requires
            at(*old(buf), s, p),
            spec_field(pool@, major_version, class_flags.flags, s, p) is Some,
        ensures
            spec_field(pool@, major_version, class_flags.flags, s, p) matches Some((w, e)) && w == r@ && at(*final(buf), s, e),
    {
        match Field::try_parse(pool, buf, major_version, class_flags, Ghost(s), Ghost(p)) {
            Some(v) => v,
            None => vstd::pervasive::unreached(),
        }
    }

    /// Reads as `parse` does, answering `None` where the input is not
    /// well-formed.
    pub fn try_parse(
        pool: &ConstantPool,
        buf: &mut Bytes,
        major_version: u16,
        class_flags: AccessFlags,
        Ghost(s): Ghost<Seq<u8>>,
        Ghost(p): Ghost<int>,
    ) -> (r: Option<Field>)
        requires
            at(*old(buf), s, p),
        ensures
            match r {
                Some(f) => spec_field(pool@, major_version, class_flags.flags, s, p) matches Some((w, e))
                    && w == f@ && at(*final(buf), s, e),
                None => spec_field(pool@, major_version, class_flags.flags, s, p) is None,
            },
    {
        let flags16 = read_u16(buf, Ghost(s), Ghost(p))?;
        let access_flags = flags16 as u32;
        if class_flags.is_interface() && access_flags != PUBLIC_STATIC_FINAL {
            return None;
        }
        let name_index = read_u16(buf, Ghost(s), Ghost(p + 2))?;
        let name = pool.utf8_at(name_index)?;
        let descriptor_index = read_u16(buf, Ghost(s), Ghost(p + 4))?;
        let descriptor_string = pool.utf8_at(descriptor_index)?;
        let descriptor = FieldDescriptor::parse(istr_as_str(&descriptor_string))?;
        let access_flags = AccessFlags::new(access_flags);
        let is_static = access_flags.is_static();
        let (constant_value, generic_signature) = try_parse_attributes(
            pool,
            buf,
            major_version,
            is_static,
            &descriptor,
            Ghost(s),
            Ghost(p + 6),
        )?;
        Some(Field { name, descriptor, access_flags, generic_signature, constant_value })
    }

    pub fn name(&self) -> (r: &str)
        ensures
            r@ == self@.name,
    {
        istr_as_str(&self.name)
    }

    pub fn descriptor(&self) -> (r: &FieldDescriptor)
        ensures
            r@ == self@.descriptor,
    {
        &self.descriptor
    }

    pub fn generic_signature(&self) -> (r: Option<&str>)
        ensures
            match r {
                Some(v) => self@.generic_signature == Some(v@),
                None => self@.generic_signature is None,
            },
    {
        match &self.generic_signature {
            Some(v) => Some(istr_as_str(v)),
            None => None,
        }
    }

    /// The flags of this field.
    pub fn flags(&self) -> (r: u32)
        ensures
            r == self@.access_flags,
    {
        self.access_flags.flags
    }

    pub fn is_final(&self) -> (r: bool)
        ensures
            r == (self@.access_flags & JVM_ACC_FINAL != 0),
    {
        self.access_flags.flags & JVM_ACC_FINAL != 0
    }

    pub fn is_public(&self) -> (r: bool)
        ensures
            r == (self@.access_flags & JVM_ACC_PUBLIC != 0),
    {
        self.access_flags.flags & JVM_ACC_PUBLIC != 0
    }

    pub fn is_private(&self) -> (r: bool)
        ensures
            r == (self@.access_flags & JVM_ACC_PRIVATE != 0),
    {
        self.access_flags.flags & JVM_ACC_PRIVATE != 0
    }

    pub fn is_protected(&self) -> (r: bool)
        ensures
            r == (self@.access_flags & JVM_ACC_PROTECTED != 0),
    {
        self.access_flags.flags & JVM_ACC_PROTECTED != 0
    }

    pub fn is_static(&self) -> (r: bool)
        ensures
            r == (self@.access_flags & JVM_ACC_STATIC != 0),
    {
        self.access_flags.flags & JVM_ACC_STATIC != 0
    }

    pub fn is_volatile(&self) -> (r: bool)
        ensures
            r == (self@.access_flags & JVM_ACC_VOLATILE != 0),
    {
        self.access_flags.flags & JVM_ACC_VOLATILE != 0
    }

    pub fn is_transient(&self) -> (r: bool)
        ensures
            r == (self@.access_flags & JVM_ACC_TRANSIENT != 0),
    {
        self.access_flags.flags & JVM_ACC_TRANSIENT != 0
    }

    pub fn constant_value(&self) -> (r: Option<&ConstantValue>)
        ensures
            match r {
                Some(v) => self@.constant_value == Some(v@),
                None => self@.constant_value is None,
            },
    {
        match &self.constant_value {
            Some(v) => Some(v),
            None => None,
        }
    }

    pub fn constant_int(&self) -> (r: Option<i32>)
        ensures
            r == (match self@.constant_value {
                Some(SpecConstantValue::Integer(v)) => Some(v),
                _ => None,
            }),
    {
        match &self.constant_value {
            Some(ConstantValue::Integer(v)) => Some(*v),
            _ => None,
        }
    }

    pub fn constant_long(&self) -> (r: Option<i64>)
        ensures
            r == (match self@.constant_value {
                Some(SpecConstantValue::Long(v)) => Some(v),
                _ => None,
            }),
    {
        match &self.constant_value {
            Some(ConstantValue::Long(v)) => Some(*v),
            _ => None,
        }
    }

    /// The bit pattern of a `float` constant value.
    pub fn constant_float(&self) -> (r: Option<u32>)
        ensures
            r == (match self@.constant_value {
                Some(SpecConstantValue::Float(v)) => Some(v),
                _ => None,
            }),
    {
        match &self.constant_value {
            Some(ConstantValue::Float(v)) => Some(*v),
            _ => None,
        }
    }

    /// The bit pattern of a `double` constant value.
    pub fn constant_double(&self) -> (r: Option<u64>)
        ensures
            r == (match self@.constant_value {
                Some(SpecConstantValue::Double(v)) => Some(v),
                _ => None,
            }),
    {
        match &self.constant_value {
            Some(ConstantValue::Double(v)) => Some(*v),
            _ => None,
        }
    }

    pub fn constant_string(&self) -> (r: Option<IStr>)
        ensures
            match r {
                Some(v) => self@.constant_value == Some(SpecConstantValue::String(istr_view(v))),
                None => !(self@.constant_value matches Some(SpecConstantValue::String(_))),
            },
    {
        match &self.constant_value {
            Some(ConstantValue::String(v)) => Some(istr_clone(v)),
            _ => None,
        }
    }
}

} // verus!
