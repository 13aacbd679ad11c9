//! Class file versions.

use vstd::prelude::*;

verus! {

pub const PREVIEW_MINOR: u16 = 65535;

/// A major and minor class file version.
#[derive(Debug, Ord, PartialOrd, Eq, PartialEq, Copy, Clone, Structural)]
pub struct ClassFileVersion {
    pub major: u16,
    pub minor: u16,
}

/// Whether `ClassFileVersion::from` accepts the pair: a major version of a
/// release from 1.1 to 17, and a minor version of 0 except under 1.1 (major
/// 45), which takes any minor version.  Preview versions are not accepted.
pub open spec fn spec_supported_version(major: u16, minor: u16) -> bool {
    45 <= major <= 61 && (major == 45 || minor == 0)
}

impl ClassFileVersion {
    /// The release version with the given major number (minor 0).
    pub fn release(major: u16) -> (r: ClassFileVersion)
        ensures
            r.major == major,
            r.minor == 0,
    {
        ClassFileVersion { major, minor: 0 }
    }

    /// The oldest supported release, Java 1.1.
    pub fn minimum() -> (r: ClassFileVersion)
        ensures
            r == (ClassFileVersion { major: 45, minor: 0 }),
    {
        ClassFileVersion::release(45)
    }

    /// The newest supported release, Java 17.
    pub fn latest() -> (r: ClassFileVersion)
        ensures
            r == (ClassFileVersion { major: 61, minor: 0 }),
    {
        ClassFileVersion::release(61)
    }

    /// The version with the given major and minor numbers, which must be a
    /// supported release.
    pub fn from(major: u16, minor: u16) -> (r: ClassFileVersion)
        requires
            spec_supported_version(major, minor),
        ensures
            r.major == major,
            r.minor == minor,
    {
        if major >= 46 && major <= 55 && minor > 0 {
            proof {
                assert(false);
            }
        }
        if major >= 56 && minor != 0 && minor != PREVIEW_MINOR {
            proof {
                assert(false);
            }
        }
        match major {
            45 => {
                if major != 0 {
                    ClassFileVersion::new(45, minor)
                } else {
                    ClassFileVersion::minimum()
                }
            },
            _ => ClassFileVersion::release(major),
        }
    }

    pub fn new(major: u16, minor: u16) -> (r: ClassFileVersion)
        ensures
            r.major == major,
            r.minor == minor,
    {
        ClassFileVersion { major, minor }
    }

    pub fn major(&self) -> (r: u16)
        ensures
            r == self.major,
    {
        self.major
    }

    pub fn minor(&self) -> (r: u16)
        ensures
            r == self.minor,
    {
        self.minor
    }
}

} // verus!
