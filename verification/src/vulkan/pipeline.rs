//! Graphics pipeline requests and the on-disk pipeline cache.

use vstd::prelude::*;
use crate::bytes::{spec_le_u32, le_u32, spec_u32_le_bytes, lemma_u32_le_round_trip};
use crate::text::{spec_is_whitespace, is_whitespace};

verus! {

/// Directory, relative to the working directory, that holds pipeline caches.
pub const PIPELINE_CACHE_DIR: &'static str = "cache";

/// Whether `c` cannot appear in a pipeline name: white space, a path
/// separator or NUL.
pub open spec fn spec_forbidden_in_name(c: char) -> bool {
    spec_is_whitespace(c) || c == '/' || c == '\\' || c == '\0'
}

/// A pipeline name can serve as a cache file stem: it is not empty and holds
/// no white space, path separator or NUL.
pub open spec fn spec_is_valid_pipeline_name(name: Seq<char>) -> bool {
    name.len() > 0 && forall|i: int| 0 <= i < name.len() ==> !spec_forbidden_in_name(
        #[trigger] name[i],
    )
}

/// Returns whether `name` can be used as a pipeline cache file stem.
pub fn is_valid_pipeline_name(name: &str) -> (valid: bool)
    ensures
        valid == spec_is_valid_pipeline_name(name@),
{
    let len = name.unicode_len();
    if len == 0 {
        return false;
    }
    let mut i: usize = 0;
    while i < len
        invariant
            len == name@.len(),
            0 <= i <= len,
            forall|j: int| 0 <= j < i ==> !spec_forbidden_in_name(#[trigger] name@[j]),
        decreases len - i,
    {
        let c = name.get_char(i);
        if is_whitespace(c) || c == '/' || c == '\\' || c == '\0' {
            return false;
        }
        i = i + 1;
    }
    true
}

/// The relative path of the cache file for a pipeline: `cache/<name>.pcache`.
pub open spec fn spec_pipeline_cache_path(name: Seq<char>) -> Seq<char> {
    PIPELINE_CACHE_DIR@ + "/"@ + name + ".pcache"@
}

/// Returns the relative path of the cache file for the named pipeline.
pub fn pipeline_cache_path(name: &str) -> (path: String)
    ensures
        path@ == spec_pipeline_cache_path(name@),
{
    let mut path = String::from_str(PIPELINE_CACHE_DIR);
    path.append("/");
    path.append(name);
    path.append(".pcache");
    path
}

/// Size in bytes of a version-one pipeline cache header.
pub const PIPELINE_CACHE_HEADER_SIZE: usize = 32;

/// `VK_PIPELINE_CACHE_HEADER_VERSION_ONE`.
pub const PIPELINE_CACHE_HEADER_VERSION_ONE: u32 = 1;

/// Identity of the device a pipeline cache must come from.
#[derive(Clone, Copy, Debug, PartialEq, Eq)]
pub struct PipelineCacheIdentity {
    pub vendor_id: u32,
    pub device_id: u32,
    pub pipeline_cache_uuid: [u8; 16],
}

/// Whether cache bytes begin with a version-one header written for the
/// device: header length at least 32 and version one, then matching vendor,
/// device and cache UUID. Header words are little-endian.
pub open spec fn spec_cache_compatible(data: Seq<u8>, identity: PipelineCacheIdentity) -> bool {
    &&& data.len() >= PIPELINE_CACHE_HEADER_SIZE
    &&& spec_le_u32(data, 0) >= PIPELINE_CACHE_HEADER_SIZE
    &&& spec_le_u32(data, 4) == PIPELINE_CACHE_HEADER_VERSION_ONE
    &&& spec_le_u32(data, 8) == identity.vendor_id
    &&& spec_le_u32(data, 12) == identity.device_id
    &&& data.subrange(16, 32) == identity.pipeline_cache_uuid@
}

/// Keeps cache bytes only when their header matches the device.
pub fn compatible_pipeline_cache(cache_data: Vec<u8>, identity: &PipelineCacheIdentity) -> (kept:
    Option<Vec<u8>>)
    ensures
        match kept {
            Some(data) => data@ == cache_data@ && spec_cache_compatible(cache_data@, *identity),
            None => !spec_cache_compatible(cache_data@, *identity),
        },
{
    if cache_data.len() < PIPELINE_CACHE_HEADER_SIZE {
        return None;
    }
    let header_size = le_u32(cache_data.as_slice(), 0);
    let header_version = le_u32(cache_data.as_slice(), 4);
    let vendor_id = le_u32(cache_data.as_slice(), 8);
    let device_id = le_u32(cache_data.as_slice(), 12);
    if !(header_size as usize >= PIPELINE_CACHE_HEADER_SIZE
        && header_version == PIPELINE_CACHE_HEADER_VERSION_ONE && vendor_id == identity.vendor_id
        && device_id == identity.device_id) {
        return None;
    }
    let mut i: usize = 0;
    while i < 16
        invariant
            cache_data@.len() >= 32,
            0 <= i <= 16,
            forall|j: int| 0 <= j < i ==> cache_data@[16 + j] == identity.pipeline_cache_uuid@[j],
        decreases 16 - i,
    {
        if cache_data[16 + i] != identity.pipeline_cache_uuid[i] {
            assert(cache_data@.subrange(16, 32)[i as int] != identity.pipeline_cache_uuid@[i as int]);
            return None;
        }
        i = i + 1;
    }
    assert(cache_data@.subrange(16, 32) =~= identity.pipeline_cache_uuid@);
    Some(cache_data)
}

/// The version-one header a device writes at the start of its pipeline
/// cache: header size, header version, vendor, device and cache UUID.
pub open spec fn spec_cache_header(identity: PipelineCacheIdentity) -> Seq<u8> {
    spec_u32_le_bytes(PIPELINE_CACHE_HEADER_SIZE as u32) + spec_u32_le_bytes(
        PIPELINE_CACHE_HEADER_VERSION_ONE,
    ) + spec_u32_le_bytes(identity.vendor_id) + spec_u32_le_bytes(identity.device_id)
        + identity.pipeline_cache_uuid@
}

/// A cache that starts with the header the device itself writes is kept,
/// whatever follows the header; one written for a device with another
/// vendor or device id is not.
pub proof fn lemma_own_cache_header_accepted(
    identity: PipelineCacheIdentity,
    other: PipelineCacheIdentity,
    rest: Seq<u8>,
)
    ensures
        spec_cache_compatible(spec_cache_header(identity) + rest, identity),
        other.vendor_id != identity.vendor_id || other.device_id != identity.device_id
            ==> !spec_cache_compatible(spec_cache_header(other) + rest, identity),
{
    lemma_header_fields(identity, rest);
    lemma_header_fields(other, rest);
}

proof fn lemma_header_fields(identity: PipelineCacheIdentity, rest: Seq<u8>)
    ensures
        (spec_cache_header(identity) + rest).len() >= PIPELINE_CACHE_HEADER_SIZE,
        spec_le_u32(spec_cache_header(identity) + rest, 0) == PIPELINE_CACHE_HEADER_SIZE,
        spec_le_u32(spec_cache_header(identity) + rest, 4) == PIPELINE_CACHE_HEADER_VERSION_ONE,
        spec_le_u32(spec_cache_header(identity) + rest, 8) == identity.vendor_id,
        spec_le_u32(spec_cache_header(identity) + rest, 12) == identity.device_id,
        (spec_cache_header(identity) + rest).subrange(16, 32) == identity.pipeline_cache_uuid@,
{
    let data = spec_cache_header(identity) + rest;
    let words = seq![
        PIPELINE_CACHE_HEADER_SIZE as u32,
        PIPELINE_CACHE_HEADER_VERSION_ONE,
        identity.vendor_id,
        identity.device_id,
    ];
    assert forall|w: int| 0 <= w < 4 implies #[trigger] spec_le_u32(data, 4 * w) == words[w] by {
        lemma_u32_le_round_trip(words[w]);
        let b = spec_u32_le_bytes(words[w]);
        assert(data[4 * w + 0] == b[0]);
        assert(data[4 * w + 1] == b[1]);
        assert(data[4 * w + 2] == b[2]);
        assert(data[4 * w + 3] == b[3]);
    }
    assert(spec_le_u32(data, 4 * 0int) == words[0]);
    assert(spec_le_u32(data, 4 * 1int) == words[1]);
    assert(spec_le_u32(data, 4 * 2int) == words[2]);
    assert(spec_le_u32(data, 4 * 3int) == words[3]);
    assert(data.subrange(16, 32) =~= identity.pipeline_cache_uuid@);
}

/// Different pipeline names have different cache files.
pub proof fn lemma_cache_paths_distinct(a: Seq<char>, b: Seq<char>)
    requires
        a != b,
    ensures
        spec_pipeline_cache_path(a) != spec_pipeline_cache_path(b),
{
    let prefix = PIPELINE_CACHE_DIR@ + "/"@;
    let suffix = ".pcache"@;
    if spec_pipeline_cache_path(a) == spec_pipeline_cache_path(b) {
        let pa = spec_pipeline_cache_path(a);
        assert(pa.len() == prefix.len() + a.len() + suffix.len());
        assert(a.len() == b.len());
        assert(pa.subrange(prefix.len() as int, (prefix.len() + a.len()) as int) =~= a);
        assert(spec_pipeline_cache_path(b).subrange(prefix.len() as int, (prefix.len() + b.len()) as int) =~= b);
    }
}

/// Why a graphics pipeline request cannot be built.
#[derive(Clone, Debug, PartialEq, Eq)]
pub enum PipelineRequestError {
    /// A required part of the request was not provided.
    IncompleteGraphicsPipeline(&'static str),
    /// The name cannot serve as a cache file stem.
    InvalidPipelineName { name: String },
}

/// The outcome of checking a graphics pipeline request: the name, then the
/// color format, the depth format and the shader stages, in that order.
pub open spec fn spec_check_graphics_pipeline(
    name: Seq<char>,
    color_format: Option<i32>,
    depth_format: Option<i32>,
    stage_count: nat,
) -> Result<(i32, i32), Seq<char>> {
    if !spec_is_valid_pipeline_name(name) {
        Err(name)
    } else if color_format is None {
        Err("color attachment format"@)
    } else if depth_format is None {
        Err("depth attachment format"@)
    } else if stage_count == 0 {
        Err("shader stages"@)
    } else {
        Ok((color_format->0, depth_format->0))
    }
}

/// Checks a graphics pipeline request and returns its color and depth
/// attachment formats.
pub fn check_graphics_pipeline(
    name: &str,
    color_format: Option<i32>,
    depth_format: Option<i32>,
    stage_count: usize,
) -> (checked: Result<(i32, i32), PipelineRequestError>)
    ensures
        match checked {
            Ok(formats) => spec_check_graphics_pipeline(name@, color_format, depth_format, stage_count as nat) == Ok::<(i32, i32), Seq<char>>(formats),
            Err(PipelineRequestError::InvalidPipelineName { name: n }) => n@ == name@
                && !spec_is_valid_pipeline_name(name@),
            Err(PipelineRequestError::IncompleteGraphicsPipeline(part)) =>
                spec_check_graphics_pipeline(name@, color_format, depth_format, stage_count as nat) == Err::<(i32, i32), Seq<char>>(part@)
                && spec_is_valid_pipeline_name(name@),
        },
{
    if !is_valid_pipeline_name(name) {
        return Err(PipelineRequestError::InvalidPipelineName { name: String::from_str(name) });
    }
    let color = match color_format {
        Some(f) => f,
        None => {
            let part = "color attachment format";
            return Err(PipelineRequestError::IncompleteGraphicsPipeline(part));
        },
    };
    let depth = match depth_format {
        Some(f) => f,
        None => {
            let part = "depth attachment format";
            return Err(PipelineRequestError::IncompleteGraphicsPipeline(part));
        },
    };
    if stage_count == 0 {
        let part = "shader stages";
        return Err(PipelineRequestError::IncompleteGraphicsPipeline(part));
    }
    Ok((color, depth))
}

} // verus!
