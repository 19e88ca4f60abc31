//! Semantic version triples and their packed 32-bit encoding.
//!
//! The graphics API encodes a version as a single `u32`: the major number
//! in bits 22..32, the minor number in bits 12..22 and the patch number in
//! bits 0..12.

use vstd::prelude::*;

verus! {

/// A semantic version triple.
#[derive(Clone, Copy, Debug, PartialEq, Eq, Structural)]
pub struct Version {
    pub major: u32,
    pub minor: u32,
    pub patch: u32,
}

impl Version {
    pub fn new(major: u32, minor: u32, patch: u32) -> (v: Version)
        ensures
            v == (Version { major, minor, patch }),
    {
        Version { major, minor, patch }
    }
}

impl Default for Version {
    /// The zero version, used for an engine that has not been released.
    fn default() -> (v: Version)
        ensures
            v == (Version { major: 0u32, minor: 0u32, patch: 0u32 }),
    {
        Version { major: 0, minor: 0, patch: 0 }
    }
}

/// The packed encoding of a version triple: major in bits 22..32, minor in
/// bits 12..22, patch in bits 0..12.
pub open spec fn spec_vk_version(major: u32, minor: u32, patch: u32) -> u32 {
    (major << 22u32) | (minor << 12u32) | patch
}

/// Packs a version triple into the graphics API's 32-bit encoding.
pub fn to_vk_version(version: &Version) -> (packed: u32)
    ensures
        packed == spec_vk_version(version.major, version.minor, version.patch),
{
    (version.major << 22u32) | (version.minor << 12u32) | version.patch
}

/// Unpacks the graphics API's 32-bit encoding into a version triple.
pub fn from_vk_version(version: u32) -> (v: Version)
    ensures
        v.major == version >> 22u32,
        v.minor == (version >> 12u32) & 0x3ffu32,
        v.patch == version & 0xfffu32,
{
    Version {
        major: version >> 22u32,
        minor: (version >> 12u32) & 0x3ffu32,
        patch: version & 0xfffu32,
    }
}

/// Packing a version triple that fits the field widths and unpacking it
/// again yields the original triple.
pub proof fn lemma_vk_version_round_trip(major: u32, minor: u32, patch: u32)
    requires
        major < 0x400,
        minor < 0x400,
        patch < 0x1000,
    ensures
        spec_vk_version(major, minor, patch) >> 22u32 == major,
        (spec_vk_version(major, minor, patch) >> 12u32) & 0x3ffu32 == minor,
        spec_vk_version(major, minor, patch) & 0xfffu32 == patch,
{
    assert(((major << 22u32) | (minor << 12u32) | patch) >> 22u32 == major) by (bit_vector)
        requires
            major < 0x400u32,
            minor < 0x400u32,
            patch < 0x1000u32,
    ;
    assert((((major << 22u32) | (minor << 12u32) | patch) >> 12u32) & 0x3ffu32 == minor)
        by (bit_vector)
        requires
            major < 0x400u32,
            minor < 0x400u32,
            patch < 0x1000u32,
    ;
    assert(((major << 22u32) | (minor << 12u32) | patch) & 0xfffu32 == patch) by (bit_vector)
        requires
            major < 0x400u32,
            minor < 0x400u32,
            patch < 0x1000u32,
    ;
}

} // verus!
