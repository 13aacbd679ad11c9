//! Field and method references and method handles, resolved from the
//! constant pool.  A reference names its class by the class's binary name;
//! finding the class itself is the class loader's business.

use internship::IStr;
use vstd::prelude::*;
use crate::constant_pool::{
    ConstantPool, SpecPool, pool_class_name_at, pool_field_ref_indices, pool_method_handle,
    pool_method_ref_indices, pool_method_type_index, pool_nat_indices, pool_string_at,
    pool_utf8_at,
};
use crate::constants::{
    JAVA_VERSION_8, JVM_REF_GET_FIELD, JVM_REF_INVOKE_INTERFACE, JVM_REF_INVOKE_SPECIAL,
    JVM_REF_INVOKE_STATIC, JVM_REF_INVOKE_VIRTUAL, JVM_REF_NEW_INVOKE_SPECIAL, JVM_REF_PUT_STATIC,
};
use crate::descriptors::{
    FieldDescriptor, MethodDescriptor, SpecFieldDescriptor, SpecMethodDescriptor,
    spec_field_descriptor, spec_method_descriptor,
};
use crate::strings::{istr_as_str, istr_clone, istr_eq_str, istr_view};

verus! {

// ---------------------------------------------------------------------------
// The model
// ---------------------------------------------------------------------------

pub struct SpecFieldRef {
    pub class: Seq<char>,
    pub name: Seq<char>,
    pub descriptor: SpecFieldDescriptor,
}

pub struct SpecMethodRef {
    pub class: Seq<char>,
    pub name: Seq<char>,
    pub descriptor: SpecMethodDescriptor,
    pub is_interface: bool,
}

pub enum SpecMethodHandleRef {
    Field(SpecFieldRef),
    Method(SpecMethodRef),
}

pub struct SpecMethodHandle {
    pub kind: u8,
    pub reference: SpecMethodHandleRef,
}

/// Class name, member name and descriptor text of a reference whose class
/// and name-and-type entries are at the given indices.  The name and the
/// descriptor are looked up as string entries.
pub open spec fn spec_ref_parts(pool: SpecPool, class_index: u16, nat_index: u16) -> Option<(Seq<char>, Seq<char>, Seq<char>)> {
    match pool_class_name_at(pool, class_index as int) {
        Some(class) => if nat_index == 0 {
            None
        } else {
            match pool_nat_indices(pool, nat_index as int) {
                Some((name_index, descriptor_index)) => match pool_string_at(pool, name_index as int) {
                    Some(name) => match pool_string_at(pool, descriptor_index as int) {
                        Some(descriptor) => Some((class, name, descriptor)),
                        None => None,
                    },
                    None => None,
                },
                None => None,
            }
        },
        None => None,
    }
}

/// The field reference at pool index `index`.
pub open spec fn spec_pool_field_ref(pool: SpecPool, index: int) -> Option<SpecFieldRef> {
    if index == 0 {
        None
    } else {
        match pool_field_ref_indices(pool, index) {
            Some((class_index, nat_index)) => match spec_ref_parts(pool, class_index, nat_index) {
                Some((class, name, d)) => match spec_field_descriptor(d) {
                    Some(descriptor) => Some(SpecFieldRef { class, name, descriptor }),
                    None => None,
                },
                None => None,
            },
            None => None,
        }
    }
}

/// The method or interface method reference at pool index `index`.
pub open spec fn spec_pool_method_ref(pool: SpecPool, index: int) -> Option<SpecMethodRef> {
    if index == 0 {
        None
    } else {
        match pool_method_ref_indices(pool, index) {
            Some((class_index, nat_index, is_interface)) => match spec_ref_parts(
                pool,
                class_index,
                nat_index,
            ) {
                Some((class, name, d)) => match spec_method_descriptor(d) {
                    Some(descriptor) => Some(SpecMethodRef { class, name, descriptor, is_interface }),
                    None => None,
                },
                None => None,
            },
            None => None,
        }
    }
}

/// Whether a method reference may stand behind a handle of kind `kind` in
/// a class file of the given major version.
pub open spec fn spec_method_ref_valid(reference: SpecMethodRef, kind: u8, major_version: u16) -> bool {
    &&& !((kind == JVM_REF_INVOKE_VIRTUAL || kind == JVM_REF_NEW_INVOKE_SPECIAL)
        && reference.is_interface)
    &&& !((kind == JVM_REF_INVOKE_STATIC || kind == JVM_REF_INVOKE_SPECIAL) && major_version
        < JAVA_VERSION_8 && reference.is_interface)
    &&& !(kind == JVM_REF_INVOKE_INTERFACE && !reference.is_interface)
    &&& !(((JVM_REF_INVOKE_VIRTUAL <= kind <= JVM_REF_INVOKE_SPECIAL) || kind
        == JVM_REF_INVOKE_INTERFACE) && (reference.name == "<clinit>"@ || reference.name
        == "<init>"@))
    &&& !(kind == JVM_REF_NEW_INVOKE_SPECIAL && reference.name != "<init>"@)
}

/// A method handle of kind `kind` to the entry at `reference_index`: kinds
/// 1 to 4 name a field reference, kinds 5 to 9 a method reference that must
/// pass `spec_method_ref_valid`.
pub open spec fn spec_method_handle(pool: SpecPool, kind: u8, reference_index: u16, major_version: u16) -> Option<SpecMethodHandle> {
    if !(JVM_REF_GET_FIELD <= kind <= JVM_REF_INVOKE_INTERFACE) || !(reference_index
        < pool.tags.len()) {
        None
    } else if kind <= JVM_REF_PUT_STATIC {
        match spec_pool_field_ref(pool, reference_index as int) {
            Some(f) => Some(SpecMethodHandle { kind, reference: SpecMethodHandleRef::Field(f) }),
            None => None,
        }
    } else {
        match spec_pool_method_ref(pool, reference_index as int) {
            Some(m) => if spec_method_ref_valid(m, kind, major_version) {
                Some(SpecMethodHandle { kind, reference: SpecMethodHandleRef::Method(m) })
            } else {
                None
            },
            None => None,
        }
    }
}

/// The method handle entry at pool index `index`.
pub open spec fn spec_pool_method_handle(pool: SpecPool, index: int, major_version: u16) -> Option<SpecMethodHandle> {
    if index == 0 {
        None
    } else {
        match pool_method_handle(pool, index) {
            Some((kind, reference_index)) => spec_method_handle(
                pool,
                kind,
                reference_index,
                major_version,
            ),
            None => None,
        }
    }
}

/// The method type entry at pool index `index`, parsed.
pub open spec fn spec_pool_method_type(pool: SpecPool, index: int) -> Option<SpecMethodDescriptor> {
    if index == 0 {
        None
    } else {
        match pool_method_type_index(pool, index) {
            Some(d) => match pool_utf8_at(pool, d as int) {
                Some(text) => spec_method_descriptor(text),
                None => None,
            },
            None => None,
        }
    }
}

// ---------------------------------------------------------------------------
// References
// ---------------------------------------------------------------------------

/// A reference to a field of a class.
#[derive(Debug)]
pub struct FieldRef {
    class: IStr,
    name: IStr,
    descriptor: FieldDescriptor,
}

impl View for FieldRef {
    type V = SpecFieldRef;

    closed spec fn view(&self) -> SpecFieldRef {
        SpecFieldRef {
            class: istr_view(self.class),
            name: istr_view(self.name),
            descriptor: self.descriptor@,
        }
    }
}

impl FieldRef {
    pub fn new(class: IStr, name: IStr, descriptor: FieldDescriptor) -> (r: FieldRef)
        ensures
            r@ == (SpecFieldRef {
                class: istr_view(class),
                name: istr_view(name),
                descriptor: descriptor@,
            }),
    {
        FieldRef { class, name, descriptor }
    }

    /// The binary name of the class that declares the field.
    pub fn class(&self) -> (r: &str)
        ensures
            r@ == self@.class,
    {
        istr_as_str(&self.class)
    }

    pub fn name(&self) -> (r: &str)
        ensures
            r@ == self@.name,
    {
        istr_as_str(&self.name)
    }

    pub fn descriptor(&self) -> (r: &FieldDescriptor)
        ensures
            r@ == self@.descriptor,
    {
        &self.descriptor
    }
}

/// A reference to a method of a class or an interface.
#[derive(Debug)]
pub struct MethodRef {
    class: IStr,
    name: IStr,
    descriptor: MethodDescriptor,
    is_interface: bool,
}

impl View for MethodRef {
    type V = SpecMethodRef;

    closed spec fn view(&self) -> SpecMethodRef {
        SpecMethodRef {
            class: istr_view(self.class),
            name: istr_view(self.name),
            descriptor: self.descriptor@,
            is_interface: self.is_interface,
        }
    }
}

impl MethodRef {
    pub fn new(class: IStr, name: IStr, descriptor: MethodDescriptor, is_interface: bool) -> (r: MethodRef)
        ensures
            r@ == (SpecMethodRef {
                class: istr_view(class),
                name: istr_view(name),
                descriptor: descriptor@,
                is_interface,
            }),
    {
        MethodRef { class, name, descriptor, is_interface }
    }

    /// The binary name of the class or interface that declares the method.
    pub fn class(&self) -> (r: &str)
        ensures
            r@ == self@.class,
    {
        istr_as_str(&self.class)
    }

    pub fn name(&self) -> (r: &str)
        ensures
            r@ == self@.name,
    {
        istr_as_str(&self.name)
    }

    pub fn descriptor(&self) -> (r: &MethodDescriptor)
        ensures
            r@ == self@.descriptor,
    {
        &self.descriptor
    }

    pub fn is_interface(&self) -> (r: bool)
        ensures
            r == self@.is_interface,
    {
        self.is_interface
    }
}

// ---------------------------------------------------------------------------
// Method handles
// ---------------------------------------------------------------------------

/// What a method handle refers to.
#[derive(Debug)]
pub enum MethodHandleRef {
    Field(FieldRef),
    Method(MethodRef),
}

impl View for MethodHandleRef {
    type V = SpecMethodHandleRef;

    open spec fn view(&self) -> SpecMethodHandleRef {
        match self {
            MethodHandleRef::Field(f) => SpecMethodHandleRef::Field(f@),
            MethodHandleRef::Method(m) => SpecMethodHandleRef::Method(m@),
        }
    }
}

/// A method handle: its kind and what it refers to.
#[derive(Debug)]
pub struct MethodHandle {
    kind: u8,
    reference: MethodHandleRef,
}

impl View for MethodHandle {
    type V = SpecMethodHandle;

    closed spec fn view(&self) -> SpecMethodHandle {
        SpecMethodHandle { kind: self.kind, reference: self.reference@ }
    }
}

/// Checks a method reference against the kind of handle that names it; the
/// handle is accepted only when it fits, so callers first ask
/// [`method_ref_valid`].
fn validate_method_ref(reference: &MethodRef, kind: u8, major_version: u16)
    requires
        spec_method_ref_valid(reference@, kind, major_version),
{
}

/// Whether a method reference fits the kind of handle that names it.
fn method_ref_valid(reference: &MethodRef, kind: u8, major_version: u16) -> (r: bool)
    ensures
        r == spec_method_ref_valid(reference@, kind, major_version),
{
    if (kind == JVM_REF_INVOKE_VIRTUAL || kind == JVM_REF_NEW_INVOKE_SPECIAL) && reference.is_interface {
        return false;
    }
    if (kind == JVM_REF_INVOKE_STATIC || kind == JVM_REF_INVOKE_SPECIAL) && major_version < JAVA_VERSION_8
        && reference.is_interface {
        return false;
    }
    if kind == JVM_REF_INVOKE_INTERFACE && !reference.is_interface {
        return false;
    }
    let name = &reference.name;
    if ((JVM_REF_INVOKE_VIRTUAL <= kind && kind <= JVM_REF_INVOKE_SPECIAL) || kind
        == JVM_REF_INVOKE_INTERFACE) && (istr_eq_str(name, "<clinit>") || istr_eq_str(
        name,
        "<init>",
    )) {
        return false;
    }
    if kind == JVM_REF_NEW_INVOKE_SPECIAL && !istr_eq_str(name, "<init>") {
        return false;
    }
    true
}

impl MethodHandle {
    /// Resolves a method handle of kind `kind` to the entry at
    /// `reference_index`, for a class file of the given major version; the
    /// handle must be well-formed (see `try_parse`).
    pub fn parse(pool: &ConstantPool, kind: u8, reference_index: u16, major_version: u16) -> (r: MethodHandle)
        requires
            spec_method_handle(pool@, kind, reference_index, major_version) is Some,
        ensures
            spec_method_handle(pool@, kind, reference_index, major_version) == Some(r@),
    {
        if kind <= JVM_REF_PUT_STATIC {
            match pool.get_field_ref(reference_index as usize) {
                Some(reference) => MethodHandle { kind, reference: MethodHandleRef::Field(reference) },
                None => vstd::pervasive::unreached(),
            }
        } else {
            match pool.get_method_ref(reference_index as usize) {
                Some(reference) => {
                    validate_method_ref(&reference, kind, major_version);
                    MethodHandle { kind, reference: MethodHandleRef::Method(reference) }
                },
                None => vstd::pervasive::unreached(),
            }
        }
    }

    /// Resolves a method handle as `parse` does, answering `None` where
    /// the handle is malformed.
    pub fn try_parse(pool: &ConstantPool, kind: u8, reference_index: u16, major_version: u16) -> (r: Option<MethodHandle>)
        ensures
            match r {
                Some(h) => spec_method_handle(pool@, kind, reference_index, major_version) == Some(h@),
                None => spec_method_handle(pool@, kind, reference_index, major_version) is None,
            },
    {
        if !(kind >= JVM_REF_GET_FIELD && kind <= JVM_REF_INVOKE_INTERFACE) {
            return None;
        }
        if !pool.has(reference_index as usize) {
            return None;
        }
        if kind <= JVM_REF_PUT_STATIC {
            let reference = pool.try_get_field_ref(reference_index as usize)?;
            return Some(MethodHandle { kind, reference: MethodHandleRef::Field(reference) });
        }
        let reference = pool.try_get_method_ref(reference_index as usize)?;
        if !method_ref_valid(&reference, kind, major_version) {
            return None;
        }
        Some(MethodHandle { kind, reference: MethodHandleRef::Method(reference) })
    }

    pub fn kind(&self) -> (r: u8)
        ensures
            r == self@.kind,
    {
        self.kind
    }

    pub fn is_field_ref(&self) -> (r: bool)
        ensures
            r == (self@.kind <= JVM_REF_PUT_STATIC),
    {
        self.kind <= JVM_REF_PUT_STATIC
    }

    pub fn is_method_ref(&self) -> (r: bool)
        ensures
            r == (self@.kind >= JVM_REF_INVOKE_VIRTUAL),
    {
        self.kind >= JVM_REF_INVOKE_VIRTUAL
    }

    pub fn field_ref(&self) -> (r: Option<&FieldRef>)
        ensures
            match r {
                Some(f) => self@.reference == SpecMethodHandleRef::Field(f@),
                None => !(self@.reference is Field),
            },
    {
        match &self.reference {
            MethodHandleRef::Field(f) => Some(f),
            MethodHandleRef::Method(_) => None,
        }
    }

    pub fn method_ref(&self) -> (r: Option<&MethodRef>)
        ensures
            match r {
                Some(m) => self@.reference == SpecMethodHandleRef::Method(m@),
                None => !(self@.reference is Method),
            },
    {
        match &self.reference {
            MethodHandleRef::Method(m) => Some(m),
            MethodHandleRef::Field(_) => None,
        }
    }
}

// ---------------------------------------------------------------------------
// Resolution from the pool
// ---------------------------------------------------------------------------

impl ConstantPool {
    /// Class name, member name and descriptor text of a reference.
    fn ref_parts(&self, class_index: u16, nat_index: u16) -> (r: Option<(IStr, IStr, IStr)>)
        ensures
            match r {
                Some((c, n, d)) => spec_ref_parts(self@, class_index, nat_index) == Some(
                    (istr_view(c), istr_view(n), istr_view(d)),
                ),
                None => spec_ref_parts(self@, class_index, nat_index) is None,
            },
    {
        let class = self.class_name_at(class_index)?;
        if nat_index == 0 {
            return None;
        }
        let (name_index, descriptor_index) = self.get_nat_indices(nat_index as usize)?;
        let name = self.string_at(name_index)?;
        let descriptor = self.string_at(descriptor_index)?;
        Some((class, name, descriptor))
    }

    /// The binary name of the class at pool index `index`.
    pub fn get_class(&self, index: usize) -> (r: Option<IStr>)
        ensures
            match r {
                Some(v) => index <= u16::MAX && pool_class_name_at(self@, index as int) == Some(
                    istr_view(v),
                ),
                None => index > u16::MAX || pool_class_name_at(self@, index as int) is None,
            },
    {
        if index > 0xffff {
            return None;
        }
        self.class_name_at(index as u16)
    }

    /// The field reference at pool index `index`.
    /// An entry of this kind must resolve (see `try_get_field_ref`); `None`
    /// answers an index that holds no such entry.
    pub fn get_field_ref(&self, index: usize) -> (r: Option<FieldRef>)
        requires
            index != 0 && pool_field_ref_indices(self@, index as int) is Some ==> spec_pool_field_ref(self@, index as int) is Some,
        ensures
            match r {
                Some(v) => spec_pool_field_ref(self@, index as int) == Some(v@),
                None => index == 0 || pool_field_ref_indices(self@, index as int) is None,
            },
    {
        self.try_get_field_ref(index)
    }

    /// Resolves as `get_field_ref` does, answering `None` also where the entry
    /// does not resolve.
    pub fn try_get_field_ref(&self, index: usize) -> (r: Option<FieldRef>)
        ensures
            match r {
                Some(f) => spec_pool_field_ref(self@, index as int) == Some(f@),
                None => spec_pool_field_ref(self@, index as int) is None,
            },
    {
        if index == 0 {
            return None;
        }
        let (class_index, nat_index) = self.get_field_ref_indices(index)?;
        let (class, name, d) = self.ref_parts(class_index, nat_index)?;
        let descriptor = FieldDescriptor::parse(istr_as_str(&d))?;
        Some(FieldRef { class, name, descriptor })
    }

    /// The method or interface method reference at pool index `index`.
    /// An entry of this kind must resolve (see `try_get_method_ref`); `None`
    /// answers an index that holds no such entry.
    pub fn get_method_ref(&self, index: usize) -> (r: Option<MethodRef>)
        requires
            index != 0 && pool_method_ref_indices(self@, index as int) is Some ==> spec_pool_method_ref(self@, index as int) is Some,
        ensures
            match r {
                Some(v) => spec_pool_method_ref(self@, index as int) == Some(v@),
                None => index == 0 || pool_method_ref_indices(self@, index as int) is None,
            },
    {
        self.try_get_method_ref(index)
    }

    /// Resolves as `get_method_ref` does, answering `None` also where the entry
    /// does not resolve.
    pub fn try_get_method_ref(&self, index: usize) -> (r: Option<MethodRef>)
        ensures
            match r {
                Some(m) => spec_pool_method_ref(self@, index as int) == Some(m@),
                None => spec_pool_method_ref(self@, index as int) is None,
            },
    {
        if index == 0 {
            return None;
        }
        let (class_index, nat_index, is_interface) = self.get_unresolved_method_ref(index)?;
        let (class, name, d) = self.ref_parts(class_index, nat_index)?;
        let descriptor = MethodDescriptor::parse(istr_as_str(&d))?;
        Some(MethodRef { class, name, descriptor, is_interface })
    }

    /// The method handle at pool index `index`, for a class file of the
    /// given major version.
    /// An entry of this kind must resolve (see `try_get_method_handle`); `None`
    /// answers an index that holds no such entry.
    pub fn get_method_handle(&self, index: usize, major_version: u16) -> (r: Option<MethodHandle>)
        requires
            index != 0 && pool_method_handle(self@, index as int) is Some ==> spec_pool_method_handle(self@, index as int, major_version) is Some,
        ensures
            match r {
                Some(v) => spec_pool_method_handle(self@, index as int, major_version) == Some(v@),
                None => index == 0 || pool_method_handle(self@, index as int) is None,
            },
    {
        self.try_get_method_handle(index, major_version)
    }

    /// Resolves as `get_method_handle` does, answering `None` also where the entry
    /// does not resolve.
    pub fn try_get_method_handle(&self, index: usize, major_version: u16) -> (r: Option<MethodHandle>)
        ensures
            match r {
                Some(h) => spec_pool_method_handle(self@, index as int, major_version) == Some(h@),
                None => spec_pool_method_handle(self@, index as int, major_version) is None,
            },
    {
        if index == 0 {
            return None;
        }
        let (kind, reference_index) = self.get_unresolved_method_handle(index)?;
        MethodHandle::try_parse(self, kind, reference_index, major_version)
    }

    /// The method type at pool index `index`, parsed.
    pub fn get_method_type(&self, index: usize) -> (r: Option<MethodDescriptor>)
        ensures
            match r {
                Some(d) => spec_pool_method_type(self@, index as int) == Some(d@),
                None => spec_pool_method_type(self@, index as int) is None,
            },
    {
        if index == 0 {
            return None;
        }
        let descriptor_index = self.get_method_type_index(index)?;
        let text = self.utf8_at(descriptor_index)?;
        MethodDescriptor::parse(istr_as_str(&text))
    }
}

} // verus!
