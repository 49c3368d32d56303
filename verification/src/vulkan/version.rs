//! Vulkan API versions and the minimum version the renderer needs.

use vstd::prelude::*;

verus! {

/// Trusted: `ash::vk::api_version_major`, which returns bits 22..29 of a
/// packed version number.
#[verifier::external_body]
fn api_version_major(version: u32) -> (major: u32)
    ensures
        major == (version >> 22u32) & 0x7fu32,
{
    ash::vk::api_version_major(version)
}

/// Trusted: `ash::vk::api_version_minor`, which returns bits 12..22 of a
/// packed version number.
#[verifier::external_body]
fn api_version_minor(version: u32) -> (minor: u32)
    ensures
        minor == (version >> 12u32) & 0x3ffu32,
{
    ash::vk::api_version_minor(version)
}

/// Trusted: `ash::vk::api_version_patch`, which returns the low twelve bits
/// of a packed version number.
#[verifier::external_body]
fn api_version_patch(version: u32) -> (patch: u32)
    ensures
        patch == version & 0xfffu32,
{
    ash::vk::api_version_patch(version)
}

/// Trusted: `ash::vk::make_api_version`, which packs a variant, major,
/// minor and patch number into one word by shifting and or-ing them.
#[verifier::external_body]
fn make_api_version(variant: u32, major: u32, minor: u32, patch: u32) -> (packed: u32)
    ensures
        packed == (variant << 29u32) | (major << 22u32) | (minor << 12u32) | patch,
{
    ash::vk::make_api_version(variant, major, minor, patch)
}

/// A Vulkan API version, ordered by major, then minor, then patch number.
#[derive(Clone, Copy, Debug, PartialEq, Eq, Structural)]
pub struct ApiVersion {
    pub major: u32,
    pub minor: u32,
    pub patch: u32,
}

/// The lowest API version the renderer accepts, 1.3.0.
pub open spec fn spec_min_api_version() -> ApiVersion {
    ApiVersion { major: 1, minor: 3, patch: 0 }
}

impl ApiVersion {
    /// Creates a version from its three numbers.
    pub fn new(major: u32, minor: u32, patch: u32) -> (version: Self)
        ensures
            version == (ApiVersion { major, minor, patch }),
    {
        Self { major, minor, patch }
    }

    /// The lowest API version the renderer accepts.
    pub fn min_supported() -> (version: Self)
        ensures
            version == spec_min_api_version(),
    {
        Self::new(1, 3, 0)
    }

    /// Lexicographic order on (major, minor, patch).
    pub open spec fn spec_lt(self, other: Self) -> bool {
        ||| self.major < other.major
        ||| self.major == other.major && self.minor < other.minor
        ||| self.major == other.major && self.minor == other.minor && self.patch < other.patch
    }

    /// Whether `self` is an older version than `other`.
    pub fn older_than(&self, other: &Self) -> (older: bool)
        ensures
            older == self.spec_lt(*other),
    {
        self.major < other.major || (self.major == other.major && self.minor < other.minor) || (
        self.major == other.major && self.minor == other.minor && self.patch < other.patch)
    }

    /// The version that a packed Vulkan version number denotes.
    pub open spec fn spec_from_packed(version: u32) -> Self {
        ApiVersion {
            major: (version >> 22u32) & 0x7fu32,
            minor: (version >> 12u32) & 0x3ffu32,
            patch: version & 0xfffu32,
        }
    }

    /// Unpacks a Vulkan version number; the variant bits are dropped.
    pub fn from_packed(version: u32) -> (unpacked: Self)
        ensures
            unpacked == Self::spec_from_packed(version),
    {
        Self {
            major: api_version_major(version),
            minor: api_version_minor(version),
            patch: api_version_patch(version),
        }
    }

    /// The packed Vulkan version number of `self`, with variant zero.
    pub open spec fn spec_to_packed(self) -> u32 {
        (0u32 << 29u32) | (self.major << 22u32) | (self.minor << 12u32) | self.patch
    }

    /// Packs the version into a Vulkan version number with variant zero.
    pub fn to_packed(&self) -> (packed: u32)
        ensures
            packed == self.spec_to_packed(),
    {
        make_api_version(0, self.major, self.minor, self.patch)
    }

    /// Whether every number fits its field of a packed version.
    pub open spec fn fits_packed(self) -> bool {
        self.major < 128 && self.minor < 1024 && self.patch < 4096
    }
}

/// Packing a version and unpacking the result gives the version back,
/// whenever each of its numbers fits its field.
pub proof fn lemma_packed_round_trip(version: ApiVersion)
    requires
        version.fits_packed(),
    ensures
        ApiVersion::spec_from_packed(version.spec_to_packed()) == version,
{
    let major = version.major;
    let minor = version.minor;
    let patch = version.patch;
    assert((((0u32 << 29u32) | (major << 22u32) | (minor << 12u32) | patch) >> 22u32) & 0x7fu32
        == major) by (bit_vector)
        requires
            major < 128,
            minor < 1024,
            patch < 4096,
    ;
    assert((((0u32 << 29u32) | (major << 22u32) | (minor << 12u32) | patch) >> 12u32) & 0x3ffu32
        == minor) by (bit_vector)
        requires
            major < 128,
            minor < 1024,
            patch < 4096,
    ;
    assert(((0u32 << 29u32) | (major << 22u32) | (minor << 12u32) | patch) & 0xfffu32 == patch)
        by (bit_vector)
        requires
            major < 128,
            minor < 1024,
            patch < 4096,
    ;
}

/// Why the Vulkan loader was refused.
#[derive(Clone, Copy, Debug, PartialEq, Eq, Structural)]
pub enum InstanceVersionError {
    /// The loader offers an older API than the renderer needs.
    InsufficientVersion { expected: ApiVersion, got: ApiVersion },
}

/// The outcome of checking the loader's version: `None` stands for a
/// loader that reports no version, which is Vulkan 1.0.
pub open spec fn spec_check_instance_version(supported: Option<u32>) -> Result<
    ApiVersion,
    InstanceVersionError,
> {
    let got = match supported {
        Some(v) => ApiVersion::spec_from_packed(v),
        None => ApiVersion { major: 1, minor: 0, patch: 0 },
    };
    if supported.is_some() && !got.spec_lt(spec_min_api_version()) {
        Ok(got)
    } else {
        Err(InstanceVersionError::InsufficientVersion { expected: spec_min_api_version(), got })
    }
}

/// Checks the instance API version that the Vulkan loader reports.
pub fn check_instance_version(supported: Option<u32>) -> (checked: Result<
    ApiVersion,
    InstanceVersionError,
>)
    ensures
        checked == spec_check_instance_version(supported),
{
    let expected = ApiVersion::min_supported();
    match supported {
        Some(packed) => {
            let version = ApiVersion::from_packed(packed);
            if version.older_than(&expected) {
                Err(InstanceVersionError::InsufficientVersion { expected, got: version })
            } else {
                Ok(version)
            }
        },
        None => Err(
            InstanceVersionError::InsufficientVersion {
                expected,
                got: ApiVersion::new(1, 0, 0),
            },
        ),
    }
}

} // verus!
