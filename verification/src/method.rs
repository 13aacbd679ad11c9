//! Methods (JVMS 4.6), their parameters and their `Code`, `Exceptions`,
//! `MethodParameters`, `Synthetic`, `Deprecated` and `Signature`
//! attributes.

use bytes::Bytes;
use internship::IStr;
use vstd::prelude::*;
use crate::access_flags::{
    AccessFlags, JVM_ACC_CONSTRUCTOR, JVM_ACC_STATIC_INITIALIZER, spec_method_flags_illegal,
    method_flags_legal,
};
use crate::code::{CodeBlock, SpecCodeBlock, spec_code_block};
use crate::constant_pool::{ConstantPool, SpecPool, pool_utf8, pool_utf8_at};
use crate::constants::{
    JAVA_VERSION_16, JAVA_VERSION_1_5, JAVA_VERSION_7, JVM_ACC_ABSTRACT, JVM_ACC_BRIDGE,
    JVM_ACC_FINAL, JVM_ACC_INTERFACE, JVM_ACC_NATIVE, JVM_ACC_PRIVATE, JVM_ACC_PROTECTED,
    JVM_ACC_PUBLIC, JVM_ACC_STATIC, JVM_ACC_STRICT, JVM_ACC_SYNCHRONIZED, JVM_ACC_VARARGS,
};
use crate::descriptors::{MethodDescriptor, SpecMethodDescriptor, spec_method_descriptor};
use crate::field::optional_istr_view;
use crate::handles::{MethodHandle, SpecMethodHandle, spec_pool_method_handle};
use crate::reader::{
    at, read_u16, read_u16_array, read_u32, skip_bytes, spec_counted, spec_repeat, spec_skip,
    spec_u16, spec_u32, u16_item, views,
};
use crate::signature::{spec_generic_signature, try_parse_generic_signature};
use crate::strings::{istr_as_str, istr_eq_str, istr_view};

verus! {

/// The flag of a parameter that the source did not declare but the
/// language requires.
pub const ACC_MANDATED: u32 = 0x8000;

// ---------------------------------------------------------------------------
// The model
// ---------------------------------------------------------------------------

pub struct SpecMethodParameter {
    pub name: Option<Seq<char>>,
    pub access_flags: u32,
}

pub struct SpecMethod {
    pub name: Seq<char>,
    pub descriptor: SpecMethodDescriptor,
    pub access_flags: u32,
    pub generic_signature: Option<Seq<char>>,
    pub parameters: Seq<SpecMethodParameter>,
    pub code: Option<SpecCodeBlock>,
    pub checked_exception_indices: Seq<u16>,
}

pub struct SpecBootstrapMethod {
    pub handle: SpecMethodHandle,
    pub arguments: Seq<u16>,
}

/// A bootstrap method: the pool index of a method handle, then a counted
/// list of pool indices of its static arguments.
pub open spec fn spec_bootstrap_method(pool: SpecPool, major_version: u16, s: Seq<u8>, p: int) -> Option<(SpecBootstrapMethod, int)> {
    match spec_u16(s, p) {
        Some((index, q)) => match spec_pool_method_handle(pool, index as int, major_version) {
            Some(handle) => match spec_counted(u16_item(), s, q) {
                Some((arguments, e)) => Some((SpecBootstrapMethod { handle, arguments }, e)),
                None => None,
            },
            None => None,
        },
        None => None,
    }
}

pub open spec fn bootstrap_method_item(pool: SpecPool, major_version: u16) -> spec_fn(Seq<u8>, int) -> Option<(SpecBootstrapMethod, int)> {
    |s: Seq<u8>, p: int| spec_bootstrap_method(pool, major_version, s, p)
}

pub struct SpecMethodAttributes {
    pub code: Option<SpecCodeBlock>,
    pub exceptions: Option<Seq<u16>>,
    pub parameters: Option<Seq<SpecMethodParameter>>,
    pub generic_signature: Option<Seq<char>>,
}

pub open spec fn no_method_attributes() -> SpecMethodAttributes {
    SpecMethodAttributes { code: None, exceptions: None, parameters: None, generic_signature: None }
}

/// A method parameter: a name index, which is 0 for a parameter without a
/// name and must otherwise lie inside the pool, then the flags.
pub open spec fn spec_method_parameter(pool: SpecPool, s: Seq<u8>, p: int) -> Option<(SpecMethodParameter, int)> {
    match spec_u16(s, p) {
        Some((name_index, q)) => if !(name_index == 0 || name_index < pool.tags.len()) {
            None
        } else {
            match spec_u16(s, q) {
                Some((flags, e)) => Some(
                    (SpecMethodParameter {
                        name: pool_utf8_at(pool, name_index as int),
                        access_flags: flags as u32,
                    }, e),
                ),
                None => None,
            }
        },
        None => None,
    }
}

pub open spec fn method_parameter_item(pool: SpecPool) -> spec_fn(Seq<u8>, int) -> Option<(SpecMethodParameter, int)> {
    |s: Seq<u8>, p: int| spec_method_parameter(pool, s, p)
}

/// `n` method attributes from `p`, folded into `acc`.  Each attribute kind
/// may occur once; abstract and native methods may not have code.
pub open spec fn spec_method_attributes(
    pool: SpecPool,
    major_version: u16,
    flags: u32,
    s: Seq<u8>,
    p: int,
    n: nat,
    acc: SpecMethodAttributes,
) -> Option<(SpecMethodAttributes, int)>
    decreases n,
{
    if n == 0 {
        Some((acc, p))
    } else if !(s.len() - p >= 6) {
        None
    } else {
        match spec_u16(s, p) {
            Some((name_index, q1)) => match pool_utf8_at(pool, name_index as int) {
                Some(name) => match spec_u32(s, q1) {
                    Some((length, q2)) => if name == "Code"@ {
                        if acc.code is Some || flags & JVM_ACC_NATIVE != 0 || flags
                            & JVM_ACC_ABSTRACT != 0 {
                            None
                        } else {
                            match spec_code_block(pool, s, q2) {
                                Some((c, e)) => spec_method_attributes(
                                    pool,
                                    major_version,
                                    flags,
                                    s,
                                    e,
                                    (n - 1) as nat,
                                    SpecMethodAttributes { code: Some(c), ..acc },
                                ),
                                None => None,
                            }
                        }
                    } else if name == "Exceptions"@ {
                        if acc.exceptions is Some {
                            None
                        } else {
                            match spec_counted(u16_item(), s, q2) {
                                Some((v, e)) => spec_method_attributes(
                                    pool,
                                    major_version,
                                    flags,
                                    s,
                                    e,
                                    (n - 1) as nat,
                                    SpecMethodAttributes { exceptions: Some(v), ..acc },
                                ),
                                None => None,
                            }
                        }
                    } else if name == "MethodParameters"@ {
                        if acc.parameters is Some {
                            None
                        } else {
                            match spec_counted(method_parameter_item(pool), s, q2) {
                                Some((v, e)) => spec_method_attributes(
                                    pool,
                                    major_version,
                                    flags,
                                    s,
                                    e,
                                    (n - 1) as nat,
                                    SpecMethodAttributes { parameters: Some(v), ..acc },
                                ),
                                None => None,
                            }
                        }
                    } else if name == "Synthetic"@ || name == "Deprecated"@ {
                        if length != 0 {
                            None
                        } else {
                            spec_method_attributes(
                                pool,
                                major_version,
                                flags,
                                s,
                                q2,
                                (n - 1) as nat,
                                acc,
                            )
                        }
                    } else if major_version >= JAVA_VERSION_1_5 && name == "Signature"@ {
                        if acc.generic_signature is Some {
                            None
                        } else {
                            match spec_generic_signature(pool, s, q2, length) {
                                Some((g, e)) => spec_method_attributes(
                                    pool,
                                    major_version,
                                    flags,
                                    s,
                                    e,
                                    (n - 1) as nat,
                                    SpecMethodAttributes { generic_signature: Some(g), ..acc },
                                ),
                                None => None,
                            }
                        }
                    } else {
                        match spec_skip(s, q2, length as int) {
                            Some(e) => spec_method_attributes(
                                pool,
                                major_version,
                                flags,
                                s,
                                e,
                                (n - 1) as nat,
                                acc,
                            ),
                            None => None,
                        }
                    },
                    None => None,
                },
                None => None,
            },
            None => None,
        }
    }
}

/// The flags of a method after the checks that depend on its name: a static
/// initializer must return `void`, take no parameters from Java 7 on, and
/// be static from Java 7 on, and keeps only its static (and, up to Java 16,
/// strict) flag; before Java 7 it is just static.  Other methods must pass
/// the modifier checks.  A constructor is marked as one and may not stand
/// in an interface.  `None` when a check fails.
pub open spec fn spec_method_flags(
    major_version: u16,
    class_flags: u32,
    flags: u32,
    name: Seq<char>,
    descriptor: SpecMethodDescriptor,
) -> Option<u32> {
    let after_name = if name == "<clinit>"@ {
        if descriptor.return_type is Some || (major_version >= JAVA_VERSION_7
            && descriptor.parameters.len() != 0) {
            None
        } else if major_version < JAVA_VERSION_7 {
            Some(JVM_ACC_STATIC)
        } else if flags & JVM_ACC_STATIC == JVM_ACC_STATIC {
            let extra: u32 = if major_version <= JAVA_VERSION_16 {
                JVM_ACC_STRICT
            } else {
                0
            };
            Some((flags | JVM_ACC_STATIC_INITIALIZER) & (JVM_ACC_STATIC | extra))
        } else {
            None
        }
    } else if spec_method_flags_illegal(
        major_version,
        class_flags & JVM_ACC_INTERFACE != 0,
        flags,
        name == "<init>"@,
    ) {
        None
    } else {
        Some(flags)
    };
    match after_name {
        Some(f) => if name == "<init>"@ {
            if class_flags & JVM_ACC_INTERFACE != 0 {
                None
            } else {
                Some(f | JVM_ACC_CONSTRUCTOR)
            }
        } else {
            Some(f)
        },
        None => None,
    }
}

/// A method of a class with the given flags.  Methods that are neither
/// abstract nor native must have code.
pub open spec fn spec_method(pool: SpecPool, major_version: u16, class_flags: u32, s: Seq<u8>, p: int) -> Option<(SpecMethod, int)> {
    match spec_u16(s, p) {
        Some((raw_flags, q1)) => match spec_u16(s, q1) {
            Some((name_index, q2)) => match pool_utf8_at(pool, name_index as int) {
                Some(name) => match spec_u16(s, q2) {
                    Some((descriptor_index, q3)) => match pool_utf8_at(pool, descriptor_index as int) {
                        Some(d) => match spec_method_descriptor(d) {
                            Some(descriptor) => match spec_method_flags(
                                major_version,
                                class_flags,
                                raw_flags as u32,
                                name,
                                descriptor,
                            ) {
                                Some(flags) => match spec_u16(s, q3) {
                                    Some((count, q4)) => match spec_method_attributes(
                                        pool,
                                        major_version,
                                        flags,
                                        s,
                                        q4,
                                        count as nat,
                                        no_method_attributes(),
                                    ) {
                                        Some((attrs, e)) => if flags & JVM_ACC_ABSTRACT == 0 && flags
                                            & JVM_ACC_NATIVE == 0 && attrs.code is None {
                                            None
                                        } else {
                                            Some(
                                                (SpecMethod {
                                                    name,
                                                    descriptor,
                                                    access_flags: flags,
                                                    generic_signature: attrs.generic_signature,
                                                    parameters: match attrs.parameters {
                                                        Some(v) => v,
                                                        None => seq![],
                                                    },
                                                    code: attrs.code,
                                                    checked_exception_indices: match attrs.exceptions {
                                                        Some(v) => v,
                                                        None => seq![],
                                                    },
                                                }, e),
                                            )
                                        },
                                        None => None,
                                    },
                                    None => None,
                                },
                                None => None,
                            },
                            None => None,
                        },
                        None => None,
                    },
                    None => None,
                },
                None => None,
            },
            None => None,
        },
        None => None,
    }
}

pub open spec fn method_item(pool: SpecPool, major_version: u16, class_flags: u32) -> spec_fn(Seq<u8>, int) -> Option<(SpecMethod, int)> {
    |s: Seq<u8>, p: int| spec_method(pool, major_version, class_flags, s, p)
}

// ---------------------------------------------------------------------------
// Method parameters
// ---------------------------------------------------------------------------

/// A formal parameter named by a `MethodParameters` attribute.
#[derive(Debug)]
pub struct MethodParameter {
    name: Option<IStr>,
    access_flags: AccessFlags,
}

impl View for MethodParameter {
    type V = SpecMethodParameter;

    closed spec fn view(&self) -> SpecMethodParameter {
        SpecMethodParameter {
            name: optional_istr_view(self.name),
            access_flags: self.access_flags.flags,
        }
    }
}

impl MethodParameter {
    /// Reads a parameter.
    /// The input must be well-formed (see `try_parse`).
    pub fn parse(pool: &ConstantPool, buf: &mut Bytes, Ghost(s): Ghost<Seq<u8>>, Ghost(p): Ghost<int>) -> (r: MethodParameter)
        requires
            at(*old(buf), s, p),
            spec_method_parameter(pool@, s, p) is Some,
        ensures
            spec_method_parameter(pool@, s, p) matches Some((w, e)) && w == r@ && at(*final(buf), s, e),
    {
        match MethodParameter::try_parse(pool, buf, Ghost(s), Ghost(p)) {
            Some(v) => v,
            None => vstd::pervasive::unreached(),
        }
    }

    /// Reads as `parse` does, answering `None` where the input is not
    /// well-formed.
    pub fn try_parse(pool: &ConstantPool, buf: &mut Bytes, Ghost(s): Ghost<Seq<u8>>, Ghost(p): Ghost<int>) -> (r: Option<MethodParameter>)
        requires
            at(*old(buf), s, p),
        ensures
            match r {
                Some(v) => spec_method_parameter(pool@, s, p) matches Some((w, e)) && w == v@
                    && at(*final(buf), s, e),
                None => spec_method_parameter(pool@, s, p) is None,
            },
    {
        let name_index = read_u16(buf, Ghost(s), Ghost(p))?;
        if !(name_index == 0 || pool.has(name_index as usize)) {
            return None;
        }
        let name = pool.utf8_at(name_index);
        let flags = read_u16(buf, Ghost(s), Ghost(p + 2))?;
        Some(MethodParameter { name, access_flags: AccessFlags::new(flags as u32) })
    }

    /// The parameter's name, if it has one.
    pub fn name(&self) -> (r: Option<&str>)
        ensures
            match r {
                Some(v) => self@.name == Some(v@),
                None => self@.name is None,
            },
    {
        match &self.name {
            Some(v) => Some(istr_as_str(v)),
            None => None,
        }
    }

    pub fn is_final(&self) -> (r: bool)
        ensures
            r == (self@.access_flags & JVM_ACC_FINAL != 0),
    {
        self.access_flags.flags & JVM_ACC_FINAL != 0
    }

    pub fn is_mandated(&self) -> (r: bool)
        ensures
            r == (self@.access_flags & ACC_MANDATED != 0),
    {
        self.access_flags.flags & ACC_MANDATED != 0
    }
}

/// Reads a `u16` count, then that many parameters.
fn read_method_parameters(pool: &ConstantPool, buf: &mut Bytes, Ghost(s): Ghost<Seq<u8>>, Ghost(p): Ghost<int>) -> (r: Option<Vec<MethodParameter>>)
    requires
        at(*old(buf), s, p),
    ensures
        match r {
            Some(v) => spec_counted(method_parameter_item(pool@), s, p) matches Some((w, e)) && w
                == views(v@) && at(*final(buf), s, e),
            None => spec_counted(method_parameter_item(pool@), s, p) is None,
        },
{
    let count = read_u16(buf, Ghost(s), Ghost(p))?;
    let mut parameters: Vec<MethodParameter> = Vec::new();
    let mut i: u16 = 0;
    let ghost mut q = p + 2;
    proof {
        crate::reader::lemma_views_empty(parameters@);
    }
    while i < count
        invariant
            i <= count,
            at(*buf, s, q),
            spec_counted(method_parameter_item(pool@), s, p) == spec_repeat(
                method_parameter_item(pool@),
                s,
                q,
                (count - i) as nat,
                views(parameters@),
            ),
        decreases count - i,
    {
        let parameter = MethodParameter::try_parse(pool, buf, Ghost(s), Ghost(q))?;
        proof {
            crate::reader::lemma_views_push(parameters@, parameter);
            q = match spec_method_parameter(pool@, s, q) {
                Some((_, e)) => e,
                None => q,
            };
        }
        parameters.push(parameter);
        i = i + 1;
    }
    Some(parameters)
}

/// The attributes of a method with (already adjusted) flags `flags`.
fn try_parse_attributes(
    pool: &ConstantPool,
    buf: &mut Bytes,
    major_version: u16,
    flags: u32,
    Ghost(s): Ghost<Seq<u8>>,
    Ghost(p): Ghost<int>,
) -> (r: Option<(Option<CodeBlock>, Option<Vec<u16>>, Option<Vec<MethodParameter>>, Option<IStr>)>)
    requires
        at(*old(buf), s, p),
    ensures
        match r {
            Some((c, x, m, g)) => spec_u16(s, p) matches Some((n, q)) && spec_method_attributes(
                pool@,
                major_version,
                flags,
                s,
                q,
                n as nat,
                no_method_attributes(),
            ) matches Some((w, e)) && w == (SpecMethodAttributes {
                code: optional_code_view(c),
                exceptions: optional_u16s_view(x),
                parameters: optional_parameters_view(m),
                generic_signature: optional_istr_view(g),
            }) && at(*final(buf), s, e),
            None => !(spec_u16(s, p) matches Some((n, q)) && spec_method_attributes(
                pool@,
                major_version,
                flags,
                s,
                q,
                n as nat,
                no_method_attributes(),
            ) is Some),
        },
{
    let mut code: Option<CodeBlock> = None;
    let mut exceptions: Option<Vec<u16>> = None;
    let mut parameters: Option<Vec<MethodParameter>> = None;
    let mut generic_signature: Option<IStr> = None;
    let attributes_count = read_u16(buf, Ghost(s), Ghost(p))?;
    let mut count = attributes_count;
    let ghost mut q = p + 2;
    while count > 0
        invariant
            at(*buf, s, q),
            spec_u16(s, p) == Some((attributes_count, p + 2)),
            spec_method_attributes(
                pool@,
                major_version,
                flags,
                s,
                p + 2,
                attributes_count as nat,
                no_method_attributes(),
            ) == spec_method_attributes(
                pool@,
                major_version,
                flags,
                s,
                q,
                count as nat,
                SpecMethodAttributes {
                    code: optional_code_view(code),
                    exceptions: optional_u16s_view(exceptions),
                    parameters: optional_parameters_view(parameters),
                    generic_signature: optional_istr_view(generic_signature),
                },
            ),
        decreases count,
    {
        if crate::buffers::bytes_remaining(buf) < 6 {
            return None;
        }
        let name_index = read_u16(buf, Ghost(s), Ghost(q))?;
        let attribute_name = pool.utf8_at(name_index)?;
        let attribute_length = read_u32(buf, Ghost(s), Ghost(q + 2))?;
        if istr_eq_str(&attribute_name, "Code") {
            if code.is_some() || flags & JVM_ACC_NATIVE != 0 || flags & JVM_ACC_ABSTRACT != 0 {
                return None;
            }
            let c = CodeBlock::try_parse(pool, buf, Ghost(s), Ghost(q + 6))?;
            proof {
                q = match spec_code_block(pool@, s, q + 6) {
                    Some((_, e)) => e,
                    None => q,
                };
            }
            code = Some(c);
        } else if istr_eq_str(&attribute_name, "Exceptions") {
            if exceptions.is_some() {
                return None;
            }
            let v = read_u16_array(buf, Ghost(s), Ghost(q + 6))?;
            proof {
                q = match spec_counted(u16_item(), s, q + 6) {
                    Some((_, e)) => e,
                    None => q,
                };
            }
            exceptions = Some(v);
        } else if istr_eq_str(&attribute_name, "MethodParameters") {
            if parameters.is_some() {
                return None;
            }
            let v = read_method_parameters(pool, buf, Ghost(s), Ghost(q + 6))?;
            proof {
                q = match spec_counted(method_parameter_item(pool@), s, q + 6) {
                    Some((_, e)) => e,
                    None => q,
                };
            }
            parameters = Some(v);
        } else if istr_eq_str(&attribute_name, "Synthetic") || istr_eq_str(&attribute_name, "Deprecated") {
            if attribute_length != 0 {
                return None;
            }
            proof {
                q = q + 6;
            }
        } else if major_version >= JAVA_VERSION_1_5 && istr_eq_str(&attribute_name, "Signature") {
            if generic_signature.is_some() {
                return None;
            }
            let g = try_parse_generic_signature(pool, buf, attribute_length, Ghost(s), Ghost(q + 6))?;
            proof {
                q = match spec_generic_signature(pool@, s, q + 6, attribute_length) {
                    Some((_, e)) => e,
                    None => q,
                };
            }
            generic_signature = Some(g);
        } else {
            if !skip_bytes(buf, attribute_length as usize, Ghost(s), Ghost(q + 6)) {
                return None;
            }
            proof {
                q = q + 6 + attribute_length;
            }
        }
        count = count - 1;
    }
    Some((code, exceptions, parameters, generic_signature))
}

pub open spec fn optional_code_view(v: Option<CodeBlock>) -> Option<SpecCodeBlock> {
    match v {
        Some(c) => Some(c@),
        None => None,
    }
}

pub open spec fn optional_u16s_view(v: Option<Vec<u16>>) -> Option<Seq<u16>> {
    match v {
        Some(x) => Some(x@),
        None => None,
    }
}

pub open spec fn optional_parameters_view(v: Option<Vec<MethodParameter>>) -> Option<Seq<SpecMethodParameter>> {
    match v {
        Some(x) => Some(views(x@)),
        None => None,
    }
}

// ---------------------------------------------------------------------------
// Methods
// ---------------------------------------------------------------------------

/// The flags of a method named `name` with descriptor `descriptor`, after
/// the checks of `spec_method_flags`.
fn method_flags(
    major_version: u16,
    class_flags: AccessFlags,
    flags: u32,
    name: &IStr,
    descriptor: &MethodDescriptor,
) -> (r: Option<u32>)
    ensures
        r == spec_method_flags(major_version, class_flags.flags, flags, istr_view(*name), descriptor@),
{
    let mut access_flags = flags;
    if istr_eq_str(name, "<clinit>") {
        if descriptor.return_type().is_some() {
            return None;
        }
        let parameters = descriptor.parameters();
        proof {
            assert(crate::descriptors::field_descriptors_view(parameters@).len() == parameters@.len());
        }
        if major_version >= JAVA_VERSION_7 && parameters.len() != 0 {
            return None;
        }
        access_flags = access_flags | JVM_ACC_STATIC_INITIALIZER;
        if major_version < JAVA_VERSION_7 {
            access_flags = JVM_ACC_STATIC;
        } else if (access_flags & JVM_ACC_STATIC) == JVM_ACC_STATIC {
            let extra_flag: u32 = if major_version <= JAVA_VERSION_16 {
                JVM_ACC_STRICT
            } else {
                0
            };
            access_flags = access_flags & (JVM_ACC_STATIC | extra_flag);
        } else {
            proof {
                assert((flags | JVM_ACC_STATIC_INITIALIZER) & JVM_ACC_STATIC == flags & JVM_ACC_STATIC)
                    by (bit_vector);
            }
            return None;
        }
        proof {
            assert((flags | JVM_ACC_STATIC_INITIALIZER) & JVM_ACC_STATIC == flags & JVM_ACC_STATIC)
                by (bit_vector);
        }
    } else if !method_flags_legal(major_version, class_flags, access_flags, name) {
        return None;
    }
    if istr_eq_str(name, "<init>") {
        if class_flags.is_interface() {
            return None;
        }
        access_flags = access_flags | JVM_ACC_CONSTRUCTOR;
    }
    Some(access_flags)
}

/// A method: name, descriptor, flags, generic signature, parameters, code
/// and the pool indices of the exceptions that it declares.
#[derive(Debug)]
pub struct Method {
    name: IStr,
    descriptor: MethodDescriptor,
    access_flags: AccessFlags,
    generic_signature: Option<IStr>,
    parameters: Vec<MethodParameter>,
    code: Option<CodeBlock>,
    checked_exception_indices: Vec<u16>,
}

impl View for Method {
    type V = SpecMethod;

    closed spec fn view(&self) -> SpecMethod {
        SpecMethod {
            name: istr_view(self.name),
            descriptor: self.descriptor@,
            access_flags: self.access_flags.flags,
            generic_signature: optional_istr_view(self.generic_signature),
            parameters: views(self.parameters@),
            code: optional_code_view(self.code),
            checked_exception_indices: self.checked_exception_indices@,
        }
    }
}

impl Method {
    /// Reads a method of a class with flags `class_flags`; the method must be
    /// well-formed (see `try_parse`).
    pub fn parse(
        pool: &ConstantPool,
        buf: &mut Bytes,
        major_version: u16,
        class_flags: AccessFlags,
        Ghost(s): Ghost<Seq<u8>>,
        Ghost(p): Ghost<int>,
    ) -> (r: Method)
        requires
            at(*old(buf), s, p),
            spec_method(pool@, major_version, class_flags.flags, s, p) is Some,
        ensures
            spec_method(pool@, major_version, class_flags.flags, s, p) matches Some((w, e)) && w == r@
                && at(*final(buf), s, e),
    {
        match Method::try_parse(pool, buf, major_version, class_flags, Ghost(s), Ghost(p)) {
            Some(m) => m,
            None => vstd::pervasive::unreached(),
        }
    }

    /// Reads a method as `parse` does, answering `None` where the method is
    /// malformed.
    pub fn try_parse(
        pool: &ConstantPool,
        buf: &mut Bytes,
        major_version: u16,
        class_flags: AccessFlags,
        Ghost(s): Ghost<Seq<u8>>,
        Ghost(p): Ghost<int>,
    ) -> (r: Option<Method>)
        requires
            at(*old(buf), s, p),
        ensures
            match r {
                Some(m) => spec_method(pool@, major_version, class_flags.flags, s, p) matches Some((w, e))
                    && w == m@ && at(*final(buf), s, e),
                None => spec_method(pool@, major_version, class_flags.flags, s, p) is None,
            },
    {
        let raw_flags = read_u16(buf, Ghost(s), Ghost(p))?;
        let name_index = read_u16(buf, Ghost(s), Ghost(p + 2))?;
        let name = pool.utf8_at(name_index)?;
        let descriptor_index = read_u16(buf, Ghost(s), Ghost(p + 4))?;
        let descriptor_string = pool.utf8_at(descriptor_index)?;
        let descriptor = MethodDescriptor::parse(istr_as_str(&descriptor_string))?;
        let flags = method_flags(major_version, class_flags, raw_flags as u32, &name, &descriptor)?;
        let (code, exceptions, parameters, generic_signature) = try_parse_attributes(
            pool,
            buf,
            major_version,
            flags,
            Ghost(s),
            Ghost(p + 6),
        )?;
        if flags & JVM_ACC_ABSTRACT == 0 && flags & JVM_ACC_NATIVE == 0 && code.is_none() {
            return None;
        }
        let parameters = match parameters {
            Some(v) => v,
            None => {
                let v: Vec<MethodParameter> = Vec::new();
                proof {
                    crate::reader::lemma_views_empty(v@);
                }
                v
            },
        };
        let checked_exception_indices = match exceptions {
            Some(v) => v,
            None => Vec::new(),
        };
        Some(
            Method {
                name,
                descriptor,
                access_flags: AccessFlags::new(flags),
                generic_signature,
                parameters,
                code,
                checked_exception_indices,
            },
        )
    }

    /// The method's name.
    pub fn name(&self) -> (r: &str)
        ensures
            r@ == self@.name,
    {
        istr_as_str(&self.name)
    }

    /// The method's descriptor.
    pub fn descriptor(&self) -> (r: &MethodDescriptor)
        ensures
            r@ == self@.descriptor,
    {
        &self.descriptor
    }

    /// The method's generic signature, if it has one.
    pub fn generic_signature(&self) -> (r: Option<&str>)
        ensures
            match r {
                Some(v) => self@.generic_signature == Some(v@),
                None => self@.generic_signature is None,
            },
    {
        match &self.generic_signature {
            Some(v) => Some(istr_as_str(v)),
            None => None,
        }
    }

    /// The method's flags, with the markers for constructors and static
    /// initializers.
    pub fn flags(&self) -> (r: u32)
        ensures
            r == self@.access_flags,
    {
        self.access_flags.flags
    }

    /// The parameters that a `MethodParameters` attribute names.
    pub fn parameters(&self) -> (r: &[MethodParameter])
        ensures
            views(r@) == self@.parameters,
    {
        self.parameters.as_slice()
    }

    /// The pool indices of the checked exceptions that the method declares.
    pub fn checked_exception_indices(&self) -> (r: &[u16])
        ensures
            r@ == self@.checked_exception_indices,
    {
        self.checked_exception_indices.as_slice()
    }

    /// The method's code, absent for abstract and native methods.
    pub fn code(&self) -> (r: Option<&CodeBlock>)
        ensures
            match r {
                Some(c) => self@.code == Some(c@),
                None => self@.code is None,
            },
    {
        match &self.code {
            Some(c) => Some(c),
            None => None,
        }
    }

    pub fn is_final(&self) -> (r: bool)
        ensures
            r == (self@.access_flags & JVM_ACC_FINAL != 0),
    {
        self.access_flags.flags & JVM_ACC_FINAL != 0
    }

    pub fn is_public(&self) -> (r: bool)
        ensures
            r == (self@.access_flags & JVM_ACC_PUBLIC != 0),
    {
        self.access_flags.flags & JVM_ACC_PUBLIC != 0
    }

    pub fn is_abstract(&self) -> (r: bool)
        ensures
            r == (self@.access_flags & JVM_ACC_ABSTRACT != 0),
    {
        self.access_flags.flags & JVM_ACC_ABSTRACT != 0
    }

    pub fn is_private(&self) -> (r: bool)
        ensures
            r == (self@.access_flags & JVM_ACC_PRIVATE != 0),
    {
        self.access_flags.flags & JVM_ACC_PRIVATE != 0
    }

    pub fn is_protected(&self) -> (r: bool)
        ensures
            r == (self@.access_flags & JVM_ACC_PROTECTED != 0),
    {
        self.access_flags.flags & JVM_ACC_PROTECTED != 0
    }

    pub fn is_static(&self) -> (r: bool)
        ensures
            r == (self@.access_flags & JVM_ACC_STATIC != 0),
    {
        self.access_flags.flags & JVM_ACC_STATIC != 0
    }

    pub fn is_constructor(&self) -> (r: bool)
        ensures
            r == (self@.access_flags & JVM_ACC_CONSTRUCTOR != 0),
    {
        self.access_flags.flags & JVM_ACC_CONSTRUCTOR != 0
    }

    pub fn is_static_initializer(&self) -> (r: bool)
        ensures
            r == (self@.access_flags & JVM_ACC_STATIC_INITIALIZER != 0),
    {
        self.access_flags.flags & JVM_ACC_STATIC_INITIALIZER != 0
    }

    pub fn is_synchronized(&self) -> (r: bool)
        ensures
            r == (self@.access_flags & JVM_ACC_SYNCHRONIZED != 0),
    {
        self.access_flags.flags & JVM_ACC_SYNCHRONIZED != 0
    }

    pub fn is_bridge(&self) -> (r: bool)
        ensures
            r == (self@.access_flags & JVM_ACC_BRIDGE != 0),
    {
        self.access_flags.flags & JVM_ACC_BRIDGE != 0
    }

    pub fn is_varargs(&self) -> (r: bool)
        ensures
            r == (self@.access_flags & JVM_ACC_VARARGS != 0),
    {
        self.access_flags.flags & JVM_ACC_VARARGS != 0
    }

    pub fn is_native(&self) -> (r: bool)
        ensures
            r == (self@.access_flags & JVM_ACC_NATIVE != 0),
    {
        self.access_flags.flags & JVM_ACC_NATIVE != 0
    }

    pub fn is_strict(&self) -> (r: bool)
        ensures
            r == (self@.access_flags & JVM_ACC_STRICT != 0),
    {
        self.access_flags.flags & JVM_ACC_STRICT != 0
    }
}

// ---------------------------------------------------------------------------
// Bootstrap methods
// ---------------------------------------------------------------------------

/// An entry of the `BootstrapMethods` attribute.
#[derive(Debug)]
pub struct BootstrapMethod {
    handle: MethodHandle,
    arguments: Vec<u16>,
}

impl View for BootstrapMethod {
    type V = SpecBootstrapMethod;

    closed spec fn view(&self) -> SpecBootstrapMethod {
        SpecBootstrapMethod { handle: self.handle@, arguments: self.arguments@ }
    }
}

impl BootstrapMethod {
    /// Reads a bootstrap method of a class file with the given major
    /// version.
    /// The input must be well-formed (see `try_parse`).
    pub fn parse(
        pool: &ConstantPool,
        buf: &mut Bytes,
        major_version: u16,
        Ghost(s): Ghost<Seq<u8>>,
        Ghost(p): Ghost<int>,
    ) -> (r: BootstrapMethod)
        requires
            at(*old(buf), s, p),
            spec_bootstrap_method(pool@, major_version, s, p) is Some,
        ensures
            spec_bootstrap_method(pool@, major_version, s, p) matches Some((w, e)) && w == r@ && at(*final(buf), s, e),
    {
        match BootstrapMethod::try_parse(pool, buf, major_version, Ghost(s), Ghost(p)) {
            Some(v) => v,
            None => vstd::pervasive::unreached(),
        }
    }

    /// Reads as `parse` does, answering `None` where the input is not
    /// well-formed.
    pub fn try_parse(
        pool: &ConstantPool,
        buf: &mut Bytes,
        major_version: u16,
        Ghost(s): Ghost<Seq<u8>>,
        Ghost(p): Ghost<int>,
    ) -> (r: Option<BootstrapMethod>)
        requires
            at(*old(buf), s, p),
        ensures
            match r {
                Some(b) => spec_bootstrap_method(pool@, major_version, s, p) matches Some((w, e)) && w
                    == b@ && at(*final(buf), s, e),
                None => spec_bootstrap_method(pool@, major_version, s, p) is None,
            },
    {
        let index = read_u16(buf, Ghost(s), Ghost(p))?;
        let handle = pool.try_get_method_handle(index as usize, major_version)?;
        let arguments = read_u16_array(buf, Ghost(s), Ghost(p + 2))?;
        Some(BootstrapMethod { handle, arguments })
    }

    pub fn handle(&self) -> (r: &MethodHandle)
        ensures
            r@ == self@.handle,
    {
        &self.handle
    }

    /// The pool indices of the static arguments.
    pub fn arguments(&self) -> (r: &[u16])
        ensures
            r@ == self@.arguments,
    {
        self.arguments.as_slice()
    }
}

} // verus!
