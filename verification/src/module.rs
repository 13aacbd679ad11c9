//! The `Module` attribute (JVMS 4.7.25): a module's requirements, exported
//! and opened packages, used services and provided services.

use bytes::Bytes;
use internship::IStr;
use vstd::prelude::*;
use crate::access_flags::{AccessFlags, requires_flags_legal, spec_requires_flags_legal};
use crate::constant_pool::{ConstantPool, MODULE_TAG, PACKAGE_TAG, SpecPool, pool_tag, pool_utf8, pool_utf8_at};
use crate::field::optional_istr_view;
use crate::reader::{
    at, lemma_views_empty, lemma_views_push, read_u16, read_u16_array, spec_counted, spec_repeat,
    spec_u16, u16_item, views,
};
use crate::strings::{istr_as_str, istr_eq_str, istr_view};

verus! {

pub const JAVA_BASE_NAME: &'static str = "java.base";

pub const ACC_OPEN: u32 = 0x0020;

pub const ACC_MANDATED: u32 = 0x8000;

// ---------------------------------------------------------------------------
// The model
// ---------------------------------------------------------------------------

pub struct SpecModuleRequires {
    pub module_index: u16,
    pub access_flags: u32,
    pub version: Option<Seq<char>>,
}

pub struct SpecModuleExports {
    pub package_index: u16,
    pub access_flags: u32,
    pub to_indices: Seq<u16>,
}

pub struct SpecModuleProvides {
    pub module_index: u16,
    pub with_indices: Seq<u16>,
}

pub struct SpecModule {
    pub name: Seq<char>,
    pub access_flags: u32,
    pub version: Option<Seq<char>>,
    pub requirements: Seq<SpecModuleRequires>,
    pub exports: Seq<SpecModuleExports>,
    pub opens: Seq<SpecModuleExports>,
    pub uses: Seq<u16>,
    pub provides: Seq<SpecModuleProvides>,
}

/// A pool index that must name an entry with tag `tag`.
pub open spec fn spec_tagged_index(pool: SpecPool, tag: u8, s: Seq<u8>, p: int) -> Option<(u16, int)> {
    match spec_u16(s, p) {
        Some((index, e)) => if index < pool.tags.len() && index != 0 && pool_tag(pool, index as int)
            == Some(tag) {
            Some((index, e))
        } else {
            None
        },
        None => None,
    }
}

/// An optional version string: index 0 names none, any other index must
/// name a UTF-8 entry.
pub open spec fn spec_version(pool: SpecPool, index: u16) -> Option<Option<Seq<char>>> {
    if index == 0 {
        Some(None)
    } else {
        match pool_utf8(pool, index as int) {
            Some(v) => Some(Some(v)),
            None => None,
        }
    }
}

/// A requirement of the module `module_name`.
pub open spec fn spec_module_requires(pool: SpecPool, major_version: u16, module_name: Seq<char>, s: Seq<u8>, p: int) -> Option<(SpecModuleRequires, int)> {
    match spec_tagged_index(pool, MODULE_TAG, s, p) {
        Some((module_index, q1)) => match spec_u16(s, q1) {
            Some((flags, q2)) => if !spec_requires_flags_legal(module_name, major_version, flags as u32) {
                None
            } else {
                match spec_u16(s, q2) {
                    Some((version_index, e)) => match spec_version(pool, version_index) {
                        Some(version) => Some(
                            (SpecModuleRequires { module_index, access_flags: flags as u32, version }, e),
                        ),
                        None => None,
                    },
                    None => None,
                }
            },
            None => None,
        },
        None => None,
    }
}

pub open spec fn requires_item(pool: SpecPool, major_version: u16, module_name: Seq<char>) -> spec_fn(Seq<u8>, int) -> Option<(SpecModuleRequires, int)> {
    |s: Seq<u8>, p: int| spec_module_requires(pool, major_version, module_name, s, p)
}

/// An exported or opened package and the modules that it is open to.
pub open spec fn spec_module_exports(pool: SpecPool, s: Seq<u8>, p: int) -> Option<(SpecModuleExports, int)> {
    match spec_tagged_index(pool, PACKAGE_TAG, s, p) {
        Some((package_index, q1)) => match spec_u16(s, q1) {
            Some((flags, q2)) => match spec_counted(u16_item(), s, q2) {
                Some((to_indices, e)) => Some(
                    (SpecModuleExports { package_index, access_flags: flags as u32, to_indices }, e),
                ),
                None => None,
            },
            None => None,
        },
        None => None,
    }
}

pub open spec fn exports_item(pool: SpecPool) -> spec_fn(Seq<u8>, int) -> Option<(SpecModuleExports, int)> {
    |s: Seq<u8>, p: int| spec_module_exports(pool, s, p)
}

/// A provided service and its implementations.
pub open spec fn spec_module_provides(pool: SpecPool, s: Seq<u8>, p: int) -> Option<(SpecModuleProvides, int)> {
    match spec_tagged_index(pool, MODULE_TAG, s, p) {
        Some((module_index, q)) => match spec_counted(u16_item(), s, q) {
            Some((with_indices, e)) => Some((SpecModuleProvides { module_index, with_indices }, e)),
            None => None,
        },
        None => None,
    }
}

pub open spec fn provides_item(pool: SpecPool) -> spec_fn(Seq<u8>, int) -> Option<(SpecModuleProvides, int)> {
    |s: Seq<u8>, p: int| spec_module_provides(pool, s, p)
}

/// The rest of a module after its requirement count: requirements,
/// exports, opens, uses and provides.
pub open spec fn spec_module_lists(
    pool: SpecPool,
    major_version: u16,
    name: Seq<char>,
    requires_count: u16,
    s: Seq<u8>,
    p: int,
) -> Option<(Seq<SpecModuleRequires>, Seq<SpecModuleExports>, Seq<SpecModuleExports>, Seq<u16>, Seq<SpecModuleProvides>, int)> {
    match spec_repeat(requires_item(pool, major_version, name), s, p, requires_count as nat, seq![]) {
        Some((requirements, q1)) => match spec_counted(exports_item(pool), s, q1) {
            Some((exports, q2)) => match spec_counted(exports_item(pool), s, q2) {
                Some((opens, q3)) => match spec_counted(u16_item(), s, q3) {
                    Some((uses, q4)) => match spec_counted(provides_item(pool), s, q4) {
                        Some((provides, e)) => Some((requirements, exports, opens, uses, provides, e)),
                        None => None,
                    },
                    None => None,
                },
                None => None,
            },
            None => None,
        },
        None => None,
    }
}

/// A module.  `java.base` requires nothing; every other module requires
/// at least one module.
pub open spec fn spec_module(pool: SpecPool, major_version: u16, s: Seq<u8>, p: int) -> Option<(SpecModule, int)> {
    match spec_u16(s, p) {
        Some((name_index, q1)) => match pool_utf8_at(pool, name_index as int) {
            Some(name) => match spec_u16(s, q1) {
                Some((flags, q2)) => match spec_u16(s, q2) {
                    Some((version_index, q3)) => match spec_version(pool, version_index) {
                        Some(version) => match spec_u16(s, q3) {
                            Some((requires_count, q4)) => if (requires_count != 0 && name
                                == "java.base"@) || (requires_count == 0 && name != "java.base"@) {
                                None
                            } else {
                                match spec_module_lists(
                                    pool,
                                    major_version,
                                    name,
                                    requires_count,
                                    s,
                                    q4,
                                ) {
                                    Some((requirements, exports, opens, uses, provides, e)) => Some(
                                        (SpecModule {
                                            name,
                                            access_flags: flags as u32,
                                            version,
                                            requirements,
                                            exports,
                                            opens,
                                            uses,
                                            provides,
                                        }, e),
                                    ),
                                    None => None,
                                }
                            },
                            None => None,
                        },
                        None => None,
                    },
                    None => None,
                },
                None => None,
            },
            None => None,
        },
        None => None,
    }
}

// ---------------------------------------------------------------------------
// Index readers
// ---------------------------------------------------------------------------

/// Reads a pool index that must name an entry with tag `tag`.
fn read_tagged_index(pool: &ConstantPool, tag: u8, buf: &mut Bytes, Ghost(s): Ghost<Seq<u8>>, Ghost(p): Ghost<int>) -> (r: Option<u16>)
    requires
        at(*old(buf), s, p),
    ensures
        match r {
            Some(i) => spec_tagged_index(pool@, tag, s, p) == Some((i, p + 2)) && at(*final(buf), s, p + 2),
            None => spec_tagged_index(pool@, tag, s, p) is None,
        },
{
    let index = read_u16(buf, Ghost(s), Ghost(p))?;
    if !pool.has(index as usize) || index == 0 {
        return None;
    }
    match pool.get_tag(index as usize) {
        Some(t) => if t == tag {
            Some(index)
        } else {
            None
        },
        None => None,
    }
}

/// Reads a module index; the index must name a module entry of the pool.
pub fn read_module_index(pool: &ConstantPool, buf: &mut Bytes, Ghost(s): Ghost<Seq<u8>>, Ghost(p): Ghost<int>) -> (r: u16)
    requires
        at(*old(buf), s, p),
        spec_tagged_index(pool@, MODULE_TAG, s, p) is Some,
    ensures
        spec_tagged_index(pool@, MODULE_TAG, s, p) == Some((r, p + 2)),
        at(*final(buf), s, p + 2),
{
    match read_tagged_index(pool, MODULE_TAG, buf, Ghost(s), Ghost(p)) {
        Some(i) => i,
        None => vstd::pervasive::unreached(),
    }
}

/// Reads a package index; the index must name a package entry of the pool.
pub fn read_package_index(pool: &ConstantPool, buf: &mut Bytes, Ghost(s): Ghost<Seq<u8>>, Ghost(p): Ghost<int>) -> (r: u16)
    requires
        at(*old(buf), s, p),
        spec_tagged_index(pool@, PACKAGE_TAG, s, p) is Some,
    ensures
        spec_tagged_index(pool@, PACKAGE_TAG, s, p) == Some((r, p + 2)),
        at(*final(buf), s, p + 2),
{
    match read_tagged_index(pool, PACKAGE_TAG, buf, Ghost(s), Ghost(p)) {
        Some(i) => i,
        None => vstd::pervasive::unreached(),
    }
}

/// Reads an optional version index.
fn read_version(pool: &ConstantPool, buf: &mut Bytes, Ghost(s): Ghost<Seq<u8>>, Ghost(p): Ghost<int>) -> (r: Option<Option<IStr>>)
    requires
        at(*old(buf), s, p),
    ensures
        match r {
            Some(v) => spec_u16(s, p) matches Some((i, e)) && spec_version(pool@, i) == Some(
                optional_istr_view(v),
            ) && at(*final(buf), s, e),
            None => !(spec_u16(s, p) matches Some((i, e)) && spec_version(pool@, i) is Some),
        },
{
    let index = read_u16(buf, Ghost(s), Ghost(p))?;
    if index == 0 {
        return Some(None);
    }
    match pool.get_utf8(index as usize) {
        Some(v) => Some(Some(v)),
        None => None,
    }
}

// ---------------------------------------------------------------------------
// Parts of a module
// ---------------------------------------------------------------------------

/// A module that this one requires.
#[derive(Debug)]
pub struct ModuleRequires {
    module_index: u16,
    access_flags: AccessFlags,
    version: Option<IStr>,
}

impl View for ModuleRequires {
    type V = SpecModuleRequires;

    closed spec fn view(&self) -> SpecModuleRequires {
        SpecModuleRequires {
            module_index: self.module_index,
            access_flags: self.access_flags.flags,
            version: optional_istr_view(self.version),
        }
    }
}

impl ModuleRequires {
    /// Reads a requirement of the module `module_name`; it must be
    /// well-formed, its flags legal (see `try_parse`).
    pub fn parse(
        pool: &ConstantPool,
        buf: &mut Bytes,
        major_version: u16,
        module_name: &IStr,
        Ghost(s): Ghost<Seq<u8>>,
        Ghost(p): Ghost<int>,
    ) -> (r: ModuleRequires)
        requires
            at(*old(buf), s, p),
            spec_module_requires(pool@, major_version, istr_view(*module_name), s, p) is Some,
        ensures
            spec_module_requires(pool@, major_version, istr_view(*module_name), s, p) matches Some((w, e))
                && w == r@ && at(*final(buf), s, e),
    {
        match ModuleRequires::try_parse(pool, buf, major_version, module_name, Ghost(s), Ghost(p)) {
            Some(v) => v,
            None => vstd::pervasive::unreached(),
        }
    }

    /// Reads a requirement as `parse` does, answering `None` where it is
    /// malformed.
    pub fn try_parse(
        pool: &ConstantPool,
        buf: &mut Bytes,
        major_version: u16,
        module_name: &IStr,
        Ghost(s): Ghost<Seq<u8>>,
        Ghost(p): Ghost<int>,
    ) -> (r: Option<ModuleRequires>)
        requires
            at(*old(buf), s, p),
        ensures
            match r {
                Some(v) => spec_module_requires(pool@, major_version, istr_view(*module_name), s, p) matches Some((w, e))
                    && w == v@ && at(*final(buf), s, e),
                None => spec_module_requires(pool@, major_version, istr_view(*module_name), s, p) is None,
            },
    {
        let module_index = read_tagged_index(pool, MODULE_TAG, buf, Ghost(s), Ghost(p))?;
        let flags = read_u16(buf, Ghost(s), Ghost(p + 2))?;
        if !requires_flags_legal(module_name, major_version, flags as u32) {
            return None;
        }
        let version = read_version(pool, buf, Ghost(s), Ghost(p + 4))?;
        Some(ModuleRequires { module_index, access_flags: AccessFlags::new(flags as u32), version })
    }

    pub fn module_index(&self) -> (r: u16)
        ensures
            r == self@.module_index,
    {
        self.module_index
    }

    pub fn version(&self) -> (r: Option<&str>)
        ensures
            match r {
                Some(v) => self@.version == Some(v@),
                None => self@.version is None,
            },
    {
        match &self.version {
            Some(v) => Some(istr_as_str(v)),
            None => None,
        }
    }

    pub fn is_mandated(&self) -> (r: bool)
        ensures
            r == (self@.access_flags & ACC_MANDATED != 0),
    {
        self.access_flags.flags & ACC_MANDATED != 0
    }
}

/// A package that a module exports (or opens), and the modules that it is
/// exported to; an empty list exports it to every module.
#[derive(Debug)]
pub struct ModuleExports {
    package_index: u16,
    access_flags: AccessFlags,
    to_indices: Vec<u16>,
}

/// A package that a module opens; read and kept as an export is.
pub type ModuleOpens = ModuleExports;

impl View for ModuleExports {
    type V = SpecModuleExports;

    closed spec fn view(&self) -> SpecModuleExports {
        SpecModuleExports {
            package_index: self.package_index,
            access_flags: self.access_flags.flags,
            to_indices: self.to_indices@,
        }
    }
}

impl ModuleExports {
    /// The input must be well-formed (see `try_parse`).
    pub fn parse(pool: &ConstantPool, buf: &mut Bytes, Ghost(s): Ghost<Seq<u8>>, Ghost(p): Ghost<int>) -> (r: ModuleExports)
        requires
            at(*old(buf), s, p),
            spec_module_exports(pool@, s, p) is Some,
        ensures
            spec_module_exports(pool@, s, p) matches Some((w, e)) && w == r@ && at(*final(buf), s, e),
    {
        match ModuleExports::try_parse(pool, buf, Ghost(s), Ghost(p)) {
            Some(v) => v,
            None => vstd::pervasive::unreached(),
        }
    }

    /// Reads as `parse` does, answering `None` where the input is not
    /// well-formed.
    pub fn try_parse(pool: &ConstantPool, buf: &mut Bytes, Ghost(s): Ghost<Seq<u8>>, Ghost(p): Ghost<int>) -> (r: Option<ModuleExports>)
        requires
            at(*old(buf), s, p),
        ensures
            match r {
                Some(v) => spec_module_exports(pool@, s, p) matches Some((w, e)) && w == v@ && at(
                    *final(buf),
                    s,
                    e,
                ),
                None => spec_module_exports(pool@, s, p) is None,
            },
    {
        let package_index = read_tagged_index(pool, PACKAGE_TAG, buf, Ghost(s), Ghost(p))?;
        let flags = read_u16(buf, Ghost(s), Ghost(p + 2))?;
        let to_indices = read_u16_array(buf, Ghost(s), Ghost(p + 4))?;
        Some(ModuleExports { package_index, access_flags: AccessFlags::new(flags as u32), to_indices })
    }

    pub fn package_index(&self) -> (r: u16)
        ensures
            r == self@.package_index,
    {
        self.package_index
    }

    /// Whether the package is exported to named modules only.
    pub fn is_qualified(&self) -> (r: bool)
        ensures
            r == (self@.to_indices.len() != 0),
    {
        self.to_indices.len() != 0
    }

    pub fn to_indices(&self) -> (r: &[u16])
        ensures
            r@ == self@.to_indices,
    {
        self.to_indices.as_slice()
    }

    pub fn is_mandated(&self) -> (r: bool)
        ensures
            r == (self@.access_flags & ACC_MANDATED != 0),
    {
        self.access_flags.flags & ACC_MANDATED != 0
    }
}

/// A service that a module provides, and its implementations.
#[derive(Debug)]
pub struct ModuleProvides {
    module_index: u16,
    with_indices: Vec<u16>,
}

impl View for ModuleProvides {
    type V = SpecModuleProvides;

    closed spec fn view(&self) -> SpecModuleProvides {
        SpecModuleProvides { module_index: self.module_index, with_indices: self.with_indices@ }
    }
}

impl ModuleProvides {
    /// The input must be well-formed (see `try_parse`).
    pub fn parse(pool: &ConstantPool, buf: &mut Bytes, Ghost(s): Ghost<Seq<u8>>, Ghost(p): Ghost<int>) -> (r: ModuleProvides)
        requires
            at(*old(buf), s, p),
            spec_module_provides(pool@, s, p) is Some,
        ensures
            spec_module_provides(pool@, s, p) matches Some((w, e)) && w == r@ && at(*final(buf), s, e),
    {
        match ModuleProvides::try_parse(pool, buf, Ghost(s), Ghost(p)) {
            Some(v) => v,
            None => vstd::pervasive::unreached(),
        }
    }

    /// Reads as `parse` does, answering `None` where the input is not
    /// well-formed.
    pub fn try_parse(pool: &ConstantPool, buf: &mut Bytes, Ghost(s): Ghost<Seq<u8>>, Ghost(p): Ghost<int>) -> (r: Option<ModuleProvides>)
        requires
            at(*old(buf), s, p),
        ensures
            match r {
                Some(v) => spec_module_provides(pool@, s, p) matches Some((w, e)) && w == v@ && at(
                    *final(buf),
                    s,
                    e,
                ),
                None => spec_module_provides(pool@, s, p) is None,
            },
    {
        let module_index = read_tagged_index(pool, MODULE_TAG, buf, Ghost(s), Ghost(p))?;
        let with_indices = read_u16_array(buf, Ghost(s), Ghost(p + 2))?;
        Some(ModuleProvides { module_index, with_indices })
    }

    pub fn module_index(&self) -> (r: u16)
        ensures
            r == self@.module_index,
    {
        self.module_index
    }

    pub fn with_indices(&self) -> (r: &[u16])
        ensures
            r@ == self@.with_indices,
    {
        self.with_indices.as_slice()
    }
}

// ---------------------------------------------------------------------------
// Lists
// ---------------------------------------------------------------------------

/// Reads `count` requirements of the module `module_name`.
fn read_requirements(
    pool: &ConstantPool,
    buf: &mut Bytes,
    major_version: u16,
    module_name: &IStr,
    count: u16,
    Ghost(s): Ghost<Seq<u8>>,
    Ghost(p): Ghost<int>,
) -> (r: Option<Vec<ModuleRequires>>)
    requires
        at(*old(buf), s, p),
    ensures
        match r {
            Some(v) => spec_repeat(
                requires_item(pool@, major_version, istr_view(*module_name)),
                s,
                p,
                count as nat,
                seq![],
            ) matches Some((w, e)) && w == views(v@) && at(*final(buf), s, e),
            None => spec_repeat(
                requires_item(pool@, major_version, istr_view(*module_name)),
                s,
                p,
                count as nat,
                seq![],
            ) is None,
        },
{
    let mut list: Vec<ModuleRequires> = Vec::new();
    let mut i: u16 = 0;
    let ghost mut q = p;
    let ghost item = requires_item(pool@, major_version, istr_view(*module_name));
    proof {
        lemma_views_empty(list@);
    }
    while i < count
        invariant
            i <= count,
            at(*buf, s, q),
            item == requires_item(pool@, major_version, istr_view(*module_name)),
            spec_repeat(item, s, p, count as nat, seq![]) == spec_repeat(
                item,
                s,
                q,
                (count - i) as nat,
                views(list@),
            ),
        decreases count - i,
    {
        let v = ModuleRequires::try_parse(pool, buf, major_version, module_name, Ghost(s), Ghost(q))?;
        proof {
            lemma_views_push(list@, v);
            q = match spec_module_requires(pool@, major_version, istr_view(*module_name), s, q) {
                Some((_, e)) => e,
                None => q,
            };
        }
        list.push(v);
        i = i + 1;
    }
    Some(list)
}

/// Reads a `u16` count, then that many exported (or opened) packages.
fn read_exports(pool: &ConstantPool, buf: &mut Bytes, Ghost(s): Ghost<Seq<u8>>, Ghost(p): Ghost<int>) -> (r: Option<Vec<ModuleExports>>)
    requires
        at(*old(buf), s, p),
    ensures
        match r {
            Some(v) => spec_counted(exports_item(pool@), s, p) matches Some((w, e)) && w == views(
                v@,
            ) && at(*final(buf), s, e),
            None => spec_counted(exports_item(pool@), s, p) is None,
        },
{
    let count = read_u16(buf, Ghost(s), Ghost(p))?;
    let mut list: Vec<ModuleExports> = Vec::new();
    let mut i: u16 = 0;
    let ghost mut q = p + 2;
    proof {
        lemma_views_empty(list@);
    }
    while i < count
        invariant
            i <= count,
            at(*buf, s, q),
            spec_counted(exports_item(pool@), s, p) == spec_repeat(
                exports_item(pool@),
                s,
                q,
                (count - i) as nat,
                views(list@),
            ),
        decreases count - i,
    {
        let v = ModuleExports::try_parse(pool, buf, Ghost(s), Ghost(q))?;
        proof {
            lemma_views_push(list@, v);
            q = match spec_module_exports(pool@, s, q) {
                Some((_, e)) => e,
                None => q,
            };
        }
        list.push(v);
        i = i + 1;
    }
    Some(list)
}

/// Reads a `u16` count, then that many provided services.
fn read_provides(pool: &ConstantPool, buf: &mut Bytes, Ghost(s): Ghost<Seq<u8>>, Ghost(p): Ghost<int>) -> (r: Option<Vec<ModuleProvides>>)
    requires
        at(*old(buf), s, p),
    ensures
        match r {
            Some(v) => spec_counted(provides_item(pool@), s, p) matches Some((w, e)) && w == views(
                v@,
            ) && at(*final(buf), s, e),
            None => spec_counted(provides_item(pool@), s, p) is None,
        },
{
    let count = read_u16(buf, Ghost(s), Ghost(p))?;
    let mut list: Vec<ModuleProvides> = Vec::new();
    let mut i: u16 = 0;
    let ghost mut q = p + 2;
    proof {
        lemma_views_empty(list@);
    }
    while i < count
        invariant
            i <= count,
            at(*buf, s, q),
            spec_counted(provides_item(pool@), s, p) == spec_repeat(
                provides_item(pool@),
                s,
                q,
                (count - i) as nat,
                views(list@),
            ),
        decreases count - i,
    {
        let v = ModuleProvides::try_parse(pool, buf, Ghost(s), Ghost(q))?;
        proof {
            lemma_views_push(list@, v);
            q = match spec_module_provides(pool@, s, q) {
                Some((_, e)) => e,
                None => q,
            };
        }
        list.push(v);
        i = i + 1;
    }
    Some(list)
}

// ---------------------------------------------------------------------------
// Modules
// ---------------------------------------------------------------------------

/// A module: its name, flags, version and the lists of its declaration.
#[derive(Debug)]
pub struct Module {
    name: IStr,
    access_flags: AccessFlags,
    version: Option<IStr>,
    requirements: Vec<ModuleRequires>,
    exports: Vec<ModuleExports>,
    opens: Vec<ModuleOpens>,
    uses: Vec<u16>,
    provides: Vec<ModuleProvides>,
}

impl View for Module {
    type V = SpecModule;

    closed spec fn view(&self) -> SpecModule {
        SpecModule {
            name: istr_view(self.name),
            access_flags: self.access_flags.flags,
            version: optional_istr_view(self.version),
            requirements: views(self.requirements@),
            exports: views(self.exports@),
            opens: views(self.opens@),
            uses: self.uses@,
            provides: views(self.provides@),
        }
    }
}

impl Module {
    /// Reads a module declared in a class file with the given major
    /// version; the attribute must be well-formed: `java.base` requires no
    /// module and every other module requires at least one (see
    /// `try_parse`).
    pub fn parse(
        pool: &ConstantPool,
        buf: &mut Bytes,
        major_version: u16,
        Ghost(s): Ghost<Seq<u8>>,
        Ghost(p): Ghost<int>,
    ) -> (r: Module)
        requires
            at(*old(buf), s, p),
            spec_module(pool@, major_version, s, p) is Some,
        ensures
            spec_module(pool@, major_version, s, p) matches Some((w, e)) && w == r@
                && at(*final(buf), s, e),
    {
        match Module::try_parse(pool, buf, major_version, Ghost(s), Ghost(p)) {
            Some(m) => m,
            None => vstd::pervasive::unreached(),
        }
    }

    /// Reads a module as `parse` does, answering `None` where the
    /// attribute is malformed.
    pub fn try_parse(
        pool: &ConstantPool,
        buf: &mut Bytes,
        major_version: u16,
        Ghost(s): Ghost<Seq<u8>>,
        Ghost(p): Ghost<int>,
    ) -> (r: Option<Module>)
        requires
            at(*old(buf), s, p),
        ensures
            match r {
                Some(m) => spec_module(pool@, major_version, s, p) matches Some((w, e)) && w == m@
                    && at(*final(buf), s, e),
                None => spec_module(pool@, major_version, s, p) is None,
            },
    {
        let name_index = read_u16(buf, Ghost(s), Ghost(p))?;
        let name = pool.utf8_at(name_index)?;
        let flags = read_u16(buf, Ghost(s), Ghost(p + 2))?;
        let version = read_version(pool, buf, Ghost(s), Ghost(p + 4))?;
        let requires_count = read_u16(buf, Ghost(s), Ghost(p + 6))?;
        let is_base = istr_eq_str(&name, JAVA_BASE_NAME);
        proof {
            reveal_strlit("java.base");
        }
        if (requires_count != 0 && is_base) || (requires_count == 0 && !is_base) {
            return None;
        }
        let requirements = read_requirements(
            pool,
            buf,
            major_version,
            &name,
            requires_count,
            Ghost(s),
            Ghost(p + 8),
        )?;
        let ghost q1 = match spec_repeat(
            requires_item(pool@, major_version, istr_view(name)),
            s,
            p + 8,
            requires_count as nat,
            seq![],
        ) {
            Some((_, e)) => e,
            None => p,
        };
        let exports = read_exports(pool, buf, Ghost(s), Ghost(q1))?;
        let ghost q2 = match spec_counted(exports_item(pool@), s, q1) {
            Some((_, e)) => e,
            None => p,
        };
        let opens = read_exports(pool, buf, Ghost(s), Ghost(q2))?;
        let ghost q3 = match spec_counted(exports_item(pool@), s, q2) {
            Some((_, e)) => e,
            None => p,
        };
        let uses = read_u16_array(buf, Ghost(s), Ghost(q3))?;
        let ghost q4 = match spec_counted(u16_item(), s, q3) {
            Some((_, e)) => e,
            None => p,
        };
        let provides = read_provides(pool, buf, Ghost(s), Ghost(q4))?;
        Some(
            Module {
                name,
                access_flags: AccessFlags::new(flags as u32),
                version,
                requirements,
                exports,
                opens,
                uses,
                provides,
            },
        )
    }

    pub fn name(&self) -> (r: &str)
        ensures
            r@ == self@.name,
    {
        istr_as_str(&self.name)
    }

    pub fn version(&self) -> (r: Option<&str>)
        ensures
            match r {
                Some(v) => self@.version == Some(v@),
                None => self@.version is None,
            },
    {
        match &self.version {
            Some(v) => Some(istr_as_str(v)),
            None => None,
        }
    }

    /// The modules that this module requires.
    pub fn requirements(&self) -> (r: &[ModuleRequires])
        ensures
            views(r@) == self@.requirements,
    {
        self.requirements.as_slice()
    }

    pub fn exports(&self) -> (r: &[ModuleExports])
        ensures
            views(r@) == self@.exports,
    {
        self.exports.as_slice()
    }

    pub fn opens(&self) -> (r: &[ModuleOpens])
        ensures
            views(r@) == self@.opens,
    {
        self.opens.as_slice()
    }

    /// The pool indices of the services that the module uses.
    pub fn uses(&self) -> (r: &[u16])
        ensures
            r@ == self@.uses,
    {
        self.uses.as_slice()
    }

    pub fn provides(&self) -> (r: &[ModuleProvides])
        ensures
            views(r@) == self@.provides,
    {
        self.provides.as_slice()
    }

    pub fn is_open(&self) -> (r: bool)
        ensures
            r == (self@.access_flags & ACC_OPEN != 0),
    {
        self.access_flags.flags & ACC_OPEN != 0
    }

    pub fn is_mandated(&self) -> (r: bool)
        ensures
            r == (self@.access_flags & ACC_MANDATED != 0),
    {
        self.access_flags.flags & ACC_MANDATED != 0
    }
}

} // verus!
