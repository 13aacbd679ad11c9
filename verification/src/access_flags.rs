//! Access flags of classes, fields, methods and module parts, and the rules
//! that the JVM specification sets on their combinations (JVMS 4.1, 4.5,
//! 4.6, 4.7.25).

use internship::IStr;
use vstd::prelude::*;
use vstd::std_specs::convert::FromSpecImpl;
use crate::constants::{
    JAVA_VERSION_10, JAVA_VERSION_17, JAVA_VERSION_1_5, JAVA_VERSION_8, JAVA_VERSION_9, JVM_ACC_ABSTRACT, JVM_ACC_ANNOTATION, JVM_ACC_BRIDGE, JVM_ACC_ENUM, JVM_ACC_FINAL, JVM_ACC_INTERFACE, JVM_ACC_MODULE, JVM_ACC_NATIVE, JVM_ACC_PRIVATE, JVM_ACC_PROTECTED, JVM_ACC_PUBLIC, JVM_ACC_STATIC, JVM_ACC_STRICT, JVM_ACC_SUPER, JVM_ACC_SYNCHRONIZED, JVM_ACC_SYNTHETIC, JVM_ACC_TRANSIENT, JVM_ACC_VARARGS, JVM_ACC_VOLATILE,
};
use crate::strings::{istr_eq_str, istr_view};

verus! {

// Flags actually found in class files
pub const JVM_ACC_WRITTEN_FLAGS: u32 = 0x00007FFF;

// Method flags
pub const JVM_ACC_HAS_LINE_NUMBER_TABLE: u32 = 0x00100000;
pub const JVM_ACC_HAS_CHECKED_EXCEPTIONS: u32 = 0x00400000;
pub const JVM_ACC_CONSTRUCTOR: u32 = 0x10000000;
pub const JVM_ACC_STATIC_INITIALIZER: u32 = 0x20000000;

// Class and Method flags
pub const JVM_ACC_HAS_LOCAL_VARIABLE_TABLE: u32 = 0x00400000;

// Field flags
pub const JVM_ACC_FIELD_INTERNAL: u32 = 0x00000400;
pub const JVM_ACC_FIELD_STABLE: u32 = 0x00000020;
pub const JVM_ACC_FIELD_HAS_GENERIC_SIGNATURE: u32 = 0x00000800;

pub const JVM_RECOGNIZED_CLASS_MODIFIERS: u32 = JVM_ACC_PUBLIC | JVM_ACC_FINAL | JVM_ACC_SUPER
    | JVM_ACC_INTERFACE | JVM_ACC_ABSTRACT | JVM_ACC_ANNOTATION | JVM_ACC_ENUM | JVM_ACC_SYNTHETIC;
pub const JVM_RECOGNIZED_FIELD_MODIFIERS: u32 = JVM_ACC_PUBLIC | JVM_ACC_PRIVATE | JVM_ACC_PROTECTED
    | JVM_ACC_STATIC | JVM_ACC_FINAL | JVM_ACC_VOLATILE | JVM_ACC_TRANSIENT | JVM_ACC_ENUM
    | JVM_ACC_SYNTHETIC;
pub const JVM_RECOGNIZED_METHOD_MODIFIERS: u32 = JVM_ACC_PUBLIC | JVM_ACC_PRIVATE | JVM_ACC_PROTECTED
    | JVM_ACC_STATIC | JVM_ACC_FINAL | JVM_ACC_SYNCHRONIZED | JVM_ACC_BRIDGE | JVM_ACC_VARARGS
    | JVM_ACC_NATIVE | JVM_ACC_ABSTRACT | JVM_ACC_STRICT | JVM_ACC_SYNTHETIC;

/// A set of access flags.
#[derive(Debug, Eq, PartialEq, Copy, Clone, Structural)]
pub struct AccessFlags {
    pub flags: u32,
}

impl AccessFlags {
    pub fn new(flags: u32) -> (r: AccessFlags)
        ensures
            r.flags == flags,
    {
        AccessFlags { flags }
    }

    /// The flags that class files can hold.
    pub fn value(&self) -> (r: u32)
        ensures
            r == self.flags & JVM_ACC_WRITTEN_FLAGS,
    {
        self.flags & JVM_ACC_WRITTEN_FLAGS
    }

    pub fn is_public(&self) -> (r: bool)
        ensures
            r == (self.flags & JVM_ACC_PUBLIC != 0),
    {
        self.flags & JVM_ACC_PUBLIC != 0
    }

    pub fn is_private(&self) -> (r: bool)
        ensures
            r == (self.flags & JVM_ACC_PRIVATE != 0),
    {
        self.flags & JVM_ACC_PRIVATE != 0
    }

    pub fn is_protected(&self) -> (r: bool)
        ensures
            r == (self.flags & JVM_ACC_PROTECTED != 0),
    {
        self.flags & JVM_ACC_PROTECTED != 0
    }

    pub fn is_static(&self) -> (r: bool)
        ensures
            r == (self.flags & JVM_ACC_STATIC != 0),
    {
        self.flags & JVM_ACC_STATIC != 0
    }

    pub fn is_final(&self) -> (r: bool)
        ensures
            r == (self.flags & JVM_ACC_FINAL != 0),
    {
        self.flags & JVM_ACC_FINAL != 0
    }

    pub fn is_synchronized(&self) -> (r: bool)
        ensures
            r == (self.flags & JVM_ACC_SYNCHRONIZED != 0),
    {
        self.flags & JVM_ACC_SYNCHRONIZED != 0
    }

    pub fn is_super(&self) -> (r: bool)
        ensures
            r == (self.flags & JVM_ACC_SUPER != 0),
    {
        self.flags & JVM_ACC_SUPER != 0
    }

    pub fn is_volatile(&self) -> (r: bool)
        ensures
            r == (self.flags & JVM_ACC_VOLATILE != 0),
    {
        self.flags & JVM_ACC_VOLATILE != 0
    }

    pub fn is_transient(&self) -> (r: bool)
        ensures
            r == (self.flags & JVM_ACC_TRANSIENT != 0),
    {
        self.flags & JVM_ACC_TRANSIENT != 0
    }

    pub fn is_native(&self) -> (r: bool)
        ensures
            r == (self.flags & JVM_ACC_NATIVE != 0),
    {
        self.flags & JVM_ACC_NATIVE != 0
    }

    pub fn is_interface(&self) -> (r: bool)
        ensures
            r == (self.flags & JVM_ACC_INTERFACE != 0),
    {
        self.flags & JVM_ACC_INTERFACE != 0
    }

    pub fn is_abstract(&self) -> (r: bool)
        ensures
            r == (self.flags & JVM_ACC_ABSTRACT != 0),
    {
        self.flags & JVM_ACC_ABSTRACT != 0
    }

    pub fn is_synthetic(&self) -> (r: bool)
        ensures
            r == (self.flags & JVM_ACC_SYNTHETIC != 0),
    {
        self.flags & JVM_ACC_SYNTHETIC != 0
    }
}

impl Default for AccessFlags {
    fn default() -> (r: AccessFlags)
        ensures
            r.flags == 0,
    {
        AccessFlags::new(0)
    }
}

impl From<u8> for AccessFlags {
    fn from(value: u8) -> (r: AccessFlags) {
        AccessFlags::new(value as u32)
    }
}

impl FromSpecImpl<u8> for AccessFlags {
    open spec fn obeys_from_spec() -> bool {
        true
    }

    open spec fn from_spec(value: u8) -> AccessFlags {
        AccessFlags { flags: value as u32 }
    }
}

impl From<u16> for AccessFlags {
    fn from(value: u16) -> (r: AccessFlags) {
        AccessFlags::new(value as u32)
    }
}

impl FromSpecImpl<u16> for AccessFlags {
    open spec fn obeys_from_spec() -> bool {
        true
    }

    open spec fn from_spec(value: u16) -> AccessFlags {
        AccessFlags { flags: value as u32 }
    }
}

impl From<u32> for AccessFlags {
    fn from(value: u32) -> (r: AccessFlags) {
        AccessFlags::new(value as u32)
    }
}

impl FromSpecImpl<u32> for AccessFlags {
    open spec fn obeys_from_spec() -> bool {
        true
    }

    open spec fn from_spec(value: u32) -> AccessFlags {
        AccessFlags { flags: value as u32 }
    }
}

impl From<u64> for AccessFlags {
    fn from(value: u64) -> (r: AccessFlags) {
        AccessFlags::new(value as u32)
    }
}

impl FromSpecImpl<u64> for AccessFlags {
    open spec fn obeys_from_spec() -> bool {
        true
    }

    open spec fn from_spec(value: u64) -> AccessFlags {
        AccessFlags { flags: value as u32 }
    }
}

impl From<u128> for AccessFlags {
    fn from(value: u128) -> (r: AccessFlags) {
        AccessFlags::new(value as u32)
    }
}

impl FromSpecImpl<u128> for AccessFlags {
    open spec fn obeys_from_spec() -> bool {
        true
    }

    open spec fn from_spec(value: u128) -> AccessFlags {
        AccessFlags { flags: value as u32 }
    }
}

impl From<i8> for AccessFlags {
    fn from(value: i8) -> (r: AccessFlags) {
        AccessFlags::new(value as u32)
    }
}

impl FromSpecImpl<i8> for AccessFlags {
    open spec fn obeys_from_spec() -> bool {
        true
    }

    open spec fn from_spec(value: i8) -> AccessFlags {
        AccessFlags { flags: value as u32 }
    }
}

impl From<i16> for AccessFlags {
    fn from(value: i16) -> (r: AccessFlags) {
        AccessFlags::new(value as u32)
    }
}

impl FromSpecImpl<i16> for AccessFlags {
    open spec fn obeys_from_spec() -> bool {
        true
    }

    open spec fn from_spec(value: i16) -> AccessFlags {
        AccessFlags { flags: value as u32 }
    }
}

impl From<i32> for AccessFlags {
    fn from(value: i32) -> (r: AccessFlags) {
        AccessFlags::new(value as u32)
    }
}

impl FromSpecImpl<i32> for AccessFlags {
    open spec fn obeys_from_spec() -> bool {
        true
    }

    open spec fn from_spec(value: i32) -> AccessFlags {
        AccessFlags { flags: value as u32 }
    }
}

impl From<i64> for AccessFlags {
    fn from(value: i64) -> (r: AccessFlags) {
        AccessFlags::new(value as u32)
    }
}

impl FromSpecImpl<i64> for AccessFlags {
    open spec fn obeys_from_spec() -> bool {
        true
    }

    open spec fn from_spec(value: i64) -> AccessFlags {
        AccessFlags { flags: value as u32 }
    }
}

impl From<i128> for AccessFlags {
    fn from(value: i128) -> (r: AccessFlags) {
        AccessFlags::new(value as u32)
    }
}

impl FromSpecImpl<i128> for AccessFlags {
    open spec fn obeys_from_spec() -> bool {
        true
    }

    open spec fn from_spec(value: i128) -> AccessFlags {
        AccessFlags { flags: value as u32 }
    }
}

// ---------------------------------------------------------------------------
// Rules on combinations
// ---------------------------------------------------------------------------

/// Whether the class modifiers are legal for the major version: no module
/// flag; not both abstract and final; an interface is abstract; from Java 5
/// on an interface is neither super nor enum, and only an interface can be
/// an annotation.
pub open spec fn spec_class_modifiers_legal(major_version: u16, flags: u32) -> bool {
    let is_module = flags & JVM_ACC_MODULE != 0;
    let is_final = flags & JVM_ACC_FINAL != 0;
    let is_super = flags & JVM_ACC_SUPER != 0;
    let is_interface = flags & JVM_ACC_INTERFACE != 0;
    let is_abstract = flags & JVM_ACC_ABSTRACT != 0;
    let is_annotation = flags & JVM_ACC_ANNOTATION != 0;
    let is_enum = flags & JVM_ACC_ENUM != 0;
    let major_1_5_or_above = major_version >= JAVA_VERSION_1_5;
    !is_module && !((is_abstract && is_final) || (is_interface && !is_abstract) || (is_interface
        && major_1_5_or_above && (is_super || is_enum)) || (!is_interface && major_1_5_or_above
        && is_annotation))
}

/// Checks the class modifiers; the class file is accepted only when they
/// are legal, so callers first ask [`class_modifiers_legal`].
pub fn verify_modifiers(major_version: u16, flags: u32)
    requires
        spec_class_modifiers_legal(major_version, flags),
{
}

/// Whether the class modifiers are legal.
pub fn class_modifiers_legal(major_version: u16, flags: u32) -> (r: bool)
    ensures
        r == spec_class_modifiers_legal(major_version, flags),
{
    let is_module = flags & JVM_ACC_MODULE != 0;
    if !(major_version >= JAVA_VERSION_9 || !is_module) {
        return false;
    }
    if is_module {
        return false;
    }
    let is_final = flags & JVM_ACC_FINAL != 0;
    let is_super = flags & JVM_ACC_SUPER != 0;
    let is_interface = flags & JVM_ACC_INTERFACE != 0;
    let is_abstract = flags & JVM_ACC_ABSTRACT != 0;
    let is_annotation = flags & JVM_ACC_ANNOTATION != 0;
    let is_enum = flags & JVM_ACC_ENUM != 0;
    let major_1_5_or_above = major_version >= JAVA_VERSION_1_5;
    let is_illegal = (is_abstract && is_final) || (is_interface && !is_abstract) || (is_interface
        && major_1_5_or_above && (is_super || is_enum)) || (!is_interface && major_1_5_or_above
        && is_annotation);
    !is_illegal
}

/// Whether more than one of public, protected and private is set.
pub open spec fn spec_illegal_visibility(flags: u32) -> bool {
    let is_public = flags & JVM_ACC_PUBLIC != 0;
    let is_protected = flags & JVM_ACC_PROTECTED != 0;
    let is_private = flags & JVM_ACC_PRIVATE != 0;
    (is_public && is_protected) || (is_public && is_private) || (is_protected && is_private)
}

pub fn has_illegal_visibility(flags: u32) -> (r: bool)
    ensures
        r == spec_illegal_visibility(flags),
{
    let is_public = (flags & JVM_ACC_PUBLIC) != 0;
    let is_protected = (flags & JVM_ACC_PROTECTED) != 0;
    let is_private = (flags & JVM_ACC_PRIVATE) != 0;
    return (is_public && is_protected) || (is_public && is_private) || (is_protected && is_private)
}

/// Whether the modifiers of a method (other than a static initializer) are
/// illegal, for the major version, the flags of its class and whether it is
/// a constructor.
pub open spec fn spec_method_flags_illegal(
    major_version: u16,
    class_is_interface: bool,
    flags: u32,
    is_constructor: bool,
) -> bool {
    let is_public = (flags & JVM_ACC_PUBLIC) != 0;
    let is_private = (flags & JVM_ACC_PRIVATE) != 0;
    let is_protected = (flags & JVM_ACC_PROTECTED) != 0;
    let is_static = (flags & JVM_ACC_STATIC) != 0;
    let is_final = (flags & JVM_ACC_FINAL) != 0;
    let is_synchronized = (flags & JVM_ACC_SYNCHRONIZED) != 0;
    let is_bridge = (flags & JVM_ACC_BRIDGE) != 0;
    let is_native = (flags & JVM_ACC_NATIVE) != 0;
    let is_abstract = (flags & JVM_ACC_ABSTRACT) != 0;
    let is_strict = (flags & JVM_ACC_STRICT) != 0;
    let major_1_5_or_above = major_version >= JAVA_VERSION_1_5;
    let major_8_or_above = major_version >= JAVA_VERSION_8;
    let major_17_or_above = major_version >= JAVA_VERSION_17;
    if class_is_interface {
        if major_8_or_above {
            (is_public == is_private) || (is_native || is_protected || is_final || is_synchronized)
                || (is_abstract && (is_private || is_static || (!major_17_or_above && is_strict)))
        } else if major_1_5_or_above {
            !is_public || is_private || is_protected || is_static || is_final || is_synchronized
                || is_native || !is_abstract || is_strict
        } else {
            !is_public || is_static || is_final || is_native || !is_abstract
        }
    } else {
        spec_illegal_visibility(flags) || (is_constructor && (is_static || is_final
            || is_synchronized || is_native || is_abstract || (major_1_5_or_above && is_bridge)))
            || (is_abstract && (is_final || is_native || is_private || is_static || (
        major_1_5_or_above && (is_synchronized || (!major_17_or_above && is_strict)))))
    }
}

/// In an interface of Java 8 or later, the static flag never makes a method
/// that is not abstract illegal: adding or removing it leaves the verdict
/// as it is; in particular a method that is public and static and nothing
/// else is legal.  In a class, a method that is public, or public and
/// static, and is no constructor, is legal in every version.
pub proof fn law_static_methods(major_version: u16, flags: u32, is_constructor: bool)
    ensures
        (major_version >= 52 && flags & JVM_ACC_ABSTRACT == 0) ==> spec_method_flags_illegal(
            major_version,
            true,
            flags | JVM_ACC_STATIC,
            is_constructor,
        ) == spec_method_flags_illegal(major_version, true, flags & !JVM_ACC_STATIC, is_constructor),
        major_version >= 52 ==> !spec_method_flags_illegal(
            major_version,
            true,
            JVM_ACC_PUBLIC | JVM_ACC_STATIC,
            is_constructor,
        ),
        !spec_method_flags_illegal(major_version, false, JVM_ACC_PUBLIC, false),
        !spec_method_flags_illegal(major_version, false, JVM_ACC_PUBLIC | JVM_ACC_STATIC, false),
{
    let x = flags | 8u32;
    let y = flags & !8u32;
    assert(x & 1u32 == y & 1u32 && x & 2u32 == y & 2u32 && x & 4u32 == y & 4u32 && x & 0x10u32
        == y & 0x10u32 && x & 0x20u32 == y & 0x20u32 && x & 0x40u32 == y & 0x40u32 && x
        & 0x100u32 == y & 0x100u32 && x & 0x400u32 == y & 0x400u32 && x & 0x800u32 == y
        & 0x800u32 && x & 0x400u32 == flags & 0x400u32) by (bit_vector)
        requires
            x == flags | 8u32,
            y == flags & !8u32,
    ;
    assert(JVM_ACC_STATIC == 8u32);
    assert(flags | JVM_ACC_STATIC == x);
    assert(flags & !JVM_ACC_STATIC == y);
    assert(JVM_ACC_PUBLIC == 1u32 && JVM_ACC_PRIVATE == 2u32 && JVM_ACC_PROTECTED == 4u32
        && JVM_ACC_FINAL == 0x10u32 && JVM_ACC_SYNCHRONIZED == 0x20u32 && JVM_ACC_BRIDGE
        == 0x40u32 && JVM_ACC_NATIVE == 0x100u32 && JVM_ACC_ABSTRACT == 0x400u32
        && JVM_ACC_STRICT == 0x800u32);
    let ps = 9u32;
    assert(ps & 1u32 != 0 && ps & 8u32 != 0 && ps & 2u32 == 0 && ps & 4u32 == 0 && ps & 0x10u32
        == 0 && ps & 0x20u32 == 0 && ps & 0x40u32 == 0 && ps & 0x100u32 == 0 && ps & 0x400u32
        == 0 && ps & 0x800u32 == 0) by (bit_vector)
        requires
            ps == 9u32,
    ;
    let p1 = 1u32;
    assert(p1 & 1u32 != 0 && p1 & 8u32 == 0 && p1 & 2u32 == 0 && p1 & 4u32 == 0 && p1 & 0x10u32
        == 0 && p1 & 0x20u32 == 0 && p1 & 0x40u32 == 0 && p1 & 0x100u32 == 0 && p1 & 0x400u32
        == 0 && p1 & 0x800u32 == 0) by (bit_vector)
        requires
            p1 == 1u32,
    ;
    assert(JVM_ACC_PUBLIC | JVM_ACC_STATIC == 9u32) by (bit_vector);
}

/// Checks the modifiers of a method named `name` (not a static
/// initializer); the method is accepted only when they are legal, so
/// callers first ask [`method_flags_legal`].
pub fn verify_method_flags(major_version: u16, class_flags: AccessFlags, flags: u32, name: &IStr)
    requires
        !spec_method_flags_illegal(
            major_version,
            class_flags.flags & JVM_ACC_INTERFACE != 0,
            flags,
            istr_view(*name) == "<init>"@,
        ),
{
}

/// Whether the modifiers of a method named `name` (not a static
/// initializer) are legal.
pub fn method_flags_legal(major_version: u16, class_flags: AccessFlags, flags: u32, name: &IStr) -> (r: bool)
    ensures
        r == !spec_method_flags_illegal(
            major_version,
            class_flags.flags & JVM_ACC_INTERFACE != 0,
            flags,
            istr_view(*name) == "<init>"@,
        ),
{
    let is_public = (flags & JVM_ACC_PUBLIC) != 0;
    let is_private = (flags & JVM_ACC_PRIVATE) != 0;
    let is_protected = (flags & JVM_ACC_PROTECTED) != 0;
    let is_static = (flags & JVM_ACC_STATIC) != 0;
    let is_final = (flags & JVM_ACC_FINAL) != 0;
    let is_synchronized = (flags & JVM_ACC_SYNCHRONIZED) != 0;
    let is_bridge = (flags & JVM_ACC_BRIDGE) != 0;
    let is_native = (flags & JVM_ACC_NATIVE) != 0;
    let is_abstract = (flags & JVM_ACC_ABSTRACT) != 0;
    let is_strict = (flags & JVM_ACC_STRICT) != 0;
    let major_1_5_or_above = major_version >= JAVA_VERSION_1_5;
    let major_8_or_above = major_version >= JAVA_VERSION_8;
    let major_17_or_above = major_version >= JAVA_VERSION_17;
    let is_constructor = istr_eq_str(name, "<init>");
    let is_illegal = if class_flags.is_interface() {
        if major_8_or_above {
            (is_public == is_private) || (is_native || is_protected || is_final || is_synchronized)
                || (is_abstract && (is_private || is_static || (!major_17_or_above && is_strict)))
        } else if major_1_5_or_above {
            !is_public || is_private || is_protected || is_static || is_final || is_synchronized
                || is_native || !is_abstract || is_strict
        } else {
            !is_public || is_static || is_final || is_native || !is_abstract
        }
    } else {
        has_illegal_visibility(flags) || (is_constructor && (is_static || is_final
            || is_synchronized || is_native || is_abstract || (major_1_5_or_above && is_bridge)))
            || (is_abstract && (is_final || is_native || is_private || is_static || (
        major_1_5_or_above && (is_synchronized || (!major_17_or_above && is_strict)))))
    };
    !is_illegal
}

pub const ACC_STATIC_PHASE: u32 = 0x0040;
pub const ACC_TRANSITIVE: u32 = 0x0020;

/// Whether the flags of a module requirement are legal: requirements of
/// `java.base`, and those in class files before Java 10, may carry any
/// flags; others may be neither transitive nor static-phase.
pub open spec fn spec_requires_flags_legal(module_name: Seq<char>, major_version: u16, flags: u32) -> bool {
    module_name == "java.base"@ || major_version < JAVA_VERSION_10 || (flags & ACC_TRANSITIVE == 0
        && flags & ACC_STATIC_PHASE == 0)
}

/// Checks the flags of a requirement on the module `module_name`; the
/// requirement is accepted only when they are legal, so callers first ask
/// [`requires_flags_legal`].
pub fn check_requires_flags(module_name: &IStr, major_version: u16, flags: u32)
    requires
        spec_requires_flags_legal(istr_view(*module_name), major_version, flags),
{
}

/// Whether the flags of a requirement on the module `module_name` are legal.
pub fn requires_flags_legal(module_name: &IStr, major_version: u16, flags: u32) -> (r: bool)
    ensures
        r == spec_requires_flags_legal(istr_view(*module_name), major_version, flags),
{
    if istr_eq_str(module_name, "java.base") || major_version < JAVA_VERSION_10 {
        return true;
    }
    flags & ACC_TRANSITIVE == 0 && flags & ACC_STATIC_PHASE == 0
}

} // verus!
