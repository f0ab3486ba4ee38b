//! Vulkan-style version numbers: the packed 32-bit form splits into major
//! (10 bits), minor (10 bits) and patch (12 bits) fields.

use vstd::prelude::*;

verus! {

/// Major component of this package's own version.
pub const PKG_VERSION_MAJOR: u32 = 0;

/// Minor component of this package's own version.
pub const PKG_VERSION_MINOR: u32 = 1;

/// Patch component of this package's own version.
pub const PKG_VERSION_PATCH: u32 = 0;

/// The decimal character for one digit value.
pub open spec fn dec_digit(d: nat) -> char {
    if d == 0 {
        '0'
    } else if d == 1 {
        '1'
    } else if d == 2 {
        '2'
    } else if d == 3 {
        '3'
    } else if d == 4 {
        '4'
    } else if d == 5 {
        '5'
    } else if d == 6 {
        '6'
    } else if d == 7 {
        '7'
    } else if d == 8 {
        '8'
    } else {
        '9'
    }
}

/// The decimal representation of `n`, most significant digit first, with
/// no leading zeroes.
pub open spec fn dec_digits(n: nat) -> Seq<char>
    decreases n,
{
    if n < 10 {
        seq![dec_digit(n)]
    } else {
        dec_digits(n / 10).push(dec_digit(n % 10))
    }
}

/// Relies on String::push: appends exactly the given character.
#[verifier::external_body]
fn string_push(s: &mut String, c: char)
    ensures
        final(s)@ == old(s)@.push(c),
{
    s.push(c);
}

/// The character for one decimal digit.
pub fn digit_char(d: u32) -> (c: char)
    requires
        d < 10,
    ensures
        c == dec_digit(d as nat),
{
    if d == 0 {
        '0'
    } else if d == 1 {
        '1'
    } else if d == 2 {
        '2'
    } else if d == 3 {
        '3'
    } else if d == 4 {
        '4'
    } else if d == 5 {
        '5'
    } else if d == 6 {
        '6'
    } else if d == 7 {
        '7'
    } else if d == 8 {
        '8'
    } else {
        '9'
    }
}

/// Renders a number in decimal.
pub fn u32_to_string(n: u32) -> (r: String)
    ensures
        r@ == dec_digits(n as nat),
    decreases n,
{
    if n < 10 {
        let mut s = String::new();
        string_push(&mut s, digit_char(n));
        s
    } else {
        let mut s = u32_to_string(n / 10);
        string_push(&mut s, digit_char(n % 10));
        s
    }
}

/// A version number in its three components.
#[derive(Clone, Debug, PartialEq, Eq, Structural)]
pub struct Version {
    pub major: u32,
    pub minor: u32,
    pub patch: u32,
}

impl Version {
    /// A version from its components.
    pub fn new(major: u32, minor: u32, patch: u32) -> (r: Version)
        ensures
            r == (Version { major, minor, patch }),
    {
        Version { major, minor, patch }
    }

    /// This package's own version.
    pub fn from_cargo() -> (r: Version)
        ensures
            r == (Version {
                major: PKG_VERSION_MAJOR,
                minor: PKG_VERSION_MINOR,
                patch: PKG_VERSION_PATCH,
            }),
    {
        Version {
            major: PKG_VERSION_MAJOR,
            minor: PKG_VERSION_MINOR,
            patch: PKG_VERSION_PATCH,
        }
    }

    /// Splits a packed 32-bit version into its components.
    pub fn from_vulkan(version: u32) -> (r: Version)
        ensures
            r == (Version {
                major: version >> 22u32,
                minor: (version >> 12u32) & 0x3ffu32,
                patch: version & 0xfffu32,
            }),
    {
        Version {
            major: version >> 22u32,
            minor: (version >> 12u32) & 0x3ffu32,
            patch: version & 0xfffu32,
        }
    }

    /// The packed 32-bit form.  Packing is not produced yet; callers treat
    /// zero as "unversioned".
    pub fn to_vulkan_u32(&self) -> (r: u32)
        ensures
            r == 0,
    {
        0
    }
}

/// What an application reports about itself when a graphics instance is
/// created: names and versions of the application and of the engine, and
/// the API version it targets.
#[derive(Clone, Debug)]
pub struct ApplicationInfo {
    pub application_name: String,
    pub application_version: Version,
    pub engine_name: String,
    pub engine_version: Version,
    pub api_version: Version,
}

/// The canonical text of a packed version: `major.minor.patch` in decimal.
pub open spec fn spec_version_string(raw: u32) -> Seq<char> {
    dec_digits((raw >> 22u32) as nat) + seq!['.'] + dec_digits(
        ((raw >> 12u32) & 0x3ffu32) as nat,
    ) + seq!['.'] + dec_digits((raw & 0xfffu32) as nat)
}

/// A packed version paired with its canonical text.
#[derive(Clone, Debug)]
pub struct VulkanVersion {
    /// The packed 32-bit version.
    pub raw: u32,
    /// The version as `major.minor.patch` text.
    pub formatted: String,
}

impl VulkanVersion {
    /// Splits and renders a packed version.
    pub fn new(raw: u32) -> (r: VulkanVersion)
        ensures
            r.raw == raw,
            r.formatted@ == spec_version_string(raw),
    {
        let mut s = u32_to_string(raw >> 22u32);
        string_push(&mut s, '.');
        let minor = u32_to_string((raw >> 12u32) & 0x3ffu32);
        s.append(minor.as_str());
        string_push(&mut s, '.');
        let patch = u32_to_string(raw & 0xfffu32);
        s.append(patch.as_str());
        proof {
            assert(s@ =~= spec_version_string(raw));
        }
        VulkanVersion { raw, formatted: s }
    }
}

} // verus!
