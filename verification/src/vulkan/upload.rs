//! Checks and plans for uploading buffers and textures, and the compute
//! self-check's verdict on what it read back.

use vstd::prelude::*;
use crate::bytes::{spec_u32_in_order, u32_in_order};

verus! {

/// Number of textures the bindless texture heap can hold.
pub const BINDLESS_TEXTURE_CAPACITY: u32 = 1024;

/// Why a texture could not be added to the heap.
#[derive(Clone, Copy, Debug, PartialEq, Eq, Structural)]
pub enum TextureHeapError {
    /// The heap is full.
    CapacityExceeded { capacity: u32 },
}

/// Index of a texture in the bindless heap.
#[derive(Clone, Copy, Debug, PartialEq, Eq, Structural)]
pub struct TextureHandle(pub u32);

impl TextureHandle {
    /// Returns the heap slot of the texture.
    pub fn index(self) -> (index: u32)
        ensures
            index == self.0,
    {
        self.0
    }
}

/// The slot a new texture takes in a heap that holds `texture_count`
/// textures: the next free one, while the heap is not full.
pub fn next_texture_handle(texture_count: usize) -> (handle: Result<TextureHandle, TextureHeapError>)
    ensures
        match handle {
            Ok(h) => h.0 == texture_count && texture_count < BINDLESS_TEXTURE_CAPACITY,
            Err(e) => texture_count >= BINDLESS_TEXTURE_CAPACITY && e
                == (TextureHeapError::CapacityExceeded { capacity: BINDLESS_TEXTURE_CAPACITY }),
        },
{
    let index: u32 = if texture_count <= u32::MAX as usize {
        texture_count as u32
    } else {
        u32::MAX
    };
    if index >= BINDLESS_TEXTURE_CAPACITY {
        return Err(TextureHeapError::CapacityExceeded { capacity: BINDLESS_TEXTURE_CAPACITY });
    }
    Ok(TextureHandle(index))
}

/// Index of a transform in the transform table.
#[derive(Clone, Copy, Debug, PartialEq, Eq, Structural)]
pub struct TransformIndex(pub u32);

impl TransformIndex {
    /// Returns the table slot of the transform.
    pub fn index(self) -> (index: u32)
        ensures
            index == self.0,
    {
        self.0
    }
}

/// Why a buffer upload was refused.
#[derive(Clone, Copy, Debug, PartialEq, Eq, Structural)]
pub enum BufferUploadError {
    /// Write exceeds the buffer's capacity.
    WriteTooLarge { bytes: u64, capacity: u64 },
    /// Table must contain at least one entry.
    EmptyTable,
    /// Element count does not fit a `u32`.
    CountTooLarge { count: usize },
}

/// Checks that `bytes` bytes fit a buffer of `capacity` bytes.
pub fn check_buffer_write(bytes: usize, capacity: u64) -> (checked: Result<u64, BufferUploadError>)
    ensures
        match checked {
            Ok(size) => size == bytes && bytes <= capacity,
            Err(e) => bytes > capacity && e == (BufferUploadError::WriteTooLarge {
                bytes: bytes as u64,
                capacity,
            }),
        },
{
    let size = bytes as u64;
    if size > capacity {
        return Err(BufferUploadError::WriteTooLarge { bytes: size, capacity });
    }
    Ok(size)
}

/// Checks that a table to upload is not empty.
pub fn check_table_not_empty(count: usize) -> (checked: Result<(), BufferUploadError>)
    ensures
        match checked {
            Ok(()) => count > 0,
            Err(e) => count == 0 && e == BufferUploadError::EmptyTable,
        },
{
    if count == 0 {
        Err(BufferUploadError::EmptyTable)
    } else {
        Ok(())
    }
}

/// Converts an element count to the 32-bit count the GPU reads.
pub fn count_to_u32(count: usize) -> (converted: Result<u32, BufferUploadError>)
    ensures
        match converted {
            Ok(c) => c == count,
            Err(e) => count > u32::MAX && e == (BufferUploadError::CountTooLarge { count }),
        },
{
    if count > u32::MAX as usize {
        Err(BufferUploadError::CountTooLarge { count })
    } else {
        Ok(count as u32)
    }
}

/// Returns the 32-bit index of transform `index` in a table of `count`.
pub fn transform_index(index: usize, count: usize) -> (found: Option<TransformIndex>)
    ensures
        match found {
            Some(t) => index < count && t.0 == index,
            None => index >= count || index > u32::MAX,
        },
{
    if index < count && index <= u32::MAX as usize {
        Some(TransformIndex(index as u32))
    } else {
        None
    }
}

/// One step of mip generation: level `level - 1` of the given size is
/// blitted into level `level`, which is half as large, but at least one
/// pixel, on each side.
#[derive(Clone, Copy, Debug, PartialEq, Eq, Structural)]
pub struct MipBlit {
    pub level: u32,
    pub src_width: i32,
    pub src_height: i32,
    pub dst_width: i32,
    pub dst_height: i32,
}

/// Half of a mip dimension, but at least one.
pub open spec fn spec_half(d: i32) -> i32 {
    if d / 2 > 1 {
        (d / 2) as i32
    } else {
        1
    }
}

/// A texture dimension as the blit offsets take it: clamped into `i32`,
/// and at least one.
pub open spec fn spec_mip_base(d: u32) -> i32 {
    if d > i32::MAX {
        i32::MAX
    } else if d < 1 {
        1
    } else {
        d as i32
    }
}

/// Size of mip level `level` along one side of base size `base`.
pub open spec fn spec_mip_size(base: i32, level: nat) -> i32
    decreases level,
{
    if level == 0 {
        base
    } else {
        spec_half(spec_mip_size(base, (level - 1) as nat))
    }
}

/// Every mip level is at least one pixel along each side and no larger than
/// the level above it.
pub proof fn lemma_mip_sizes_positive_and_shrinking(base: i32, level: nat)
    requires
        base >= 1,
    ensures
        spec_mip_size(base, level) >= 1,
        spec_mip_size(base, level + 1) <= spec_mip_size(base, level),
    decreases level,
{
    if level > 0 {
        lemma_mip_sizes_positive_and_shrinking(base, (level - 1) as nat);
    }
}

/// Each mip level is the level above halved, rounded down, but at least
/// one pixel: a side of 5 becomes 2, a side of 2 or 3 becomes 1.
pub proof fn lemma_mip_halves_rounding_down(base: i32, level: nat)
    requires
        base >= 1,
    ensures
        ({
            let above = spec_mip_size(base, level);
            let below = spec_mip_size(base, level + 1);
            &&& below >= 1
            &&& above >= 2 ==> 2 * below <= above < 2 * below + 2
            &&& above == 1 ==> below == 1
        }),
{
    lemma_mip_sizes_positive_and_shrinking(base, level);
}

/// Plans the blits that fill levels `1 .. mip_levels` of a texture from
/// level zero.
pub fn plan_mip_blits(width: u32, height: u32, mip_levels: u32) -> (blits: Vec<MipBlit>)
    ensures
        blits@.len() == if mip_levels == 0 { 0 } else { mip_levels - 1 },
        forall|k: int|
            0 <= k < blits@.len() ==> {
                let b = #[trigger] blits@[k];
                &&& b.level == k + 1
                &&& b.src_width == spec_mip_size(spec_mip_base(width), k as nat)
                &&& b.src_height == spec_mip_size(spec_mip_base(height), k as nat)
                &&& b.dst_width == spec_mip_size(spec_mip_base(width), (k + 1) as nat)
                &&& b.dst_height == spec_mip_size(spec_mip_base(height), (k + 1) as nat)
            },
{
    let mut mip_width: i32 = if width > i32::MAX as u32 {
        i32::MAX
    } else if width < 1 {
        1
    } else {
        width as i32
    };
    let mut mip_height: i32 = if height > i32::MAX as u32 {
        i32::MAX
    } else if height < 1 {
        1
    } else {
        height as i32
    };
    let ghost base_w = spec_mip_base(width);
    let ghost base_h = spec_mip_base(height);
    let mut blits: Vec<MipBlit> = Vec::new();
    let mut level: u32 = 1;
    while level < mip_levels
        invariant
            1 <= level,
            mip_levels >= 1 ==> level <= mip_levels,
            mip_levels == 0 ==> level == 1,
            blits@.len() == level - 1,
            mip_width == spec_mip_size(base_w, (level - 1) as nat),
            mip_height == spec_mip_size(base_h, (level - 1) as nat),
            mip_width >= 1,
            mip_height >= 1,
            forall|k: int|
                0 <= k < blits@.len() ==> {
                    let b = #[trigger] blits@[k];
                    &&& b.level == k + 1
                    &&& b.src_width == spec_mip_size(base_w, k as nat)
                    &&& b.src_height == spec_mip_size(base_h, k as nat)
                    &&& b.dst_width == spec_mip_size(base_w, (k + 1) as nat)
                    &&& b.dst_height == spec_mip_size(base_h, (k + 1) as nat)
                },
        decreases mip_levels - level,
    {
        let next_width: i32 = if mip_width / 2 > 1 {
            mip_width / 2
        } else {
            1
        };
        let next_height: i32 = if mip_height / 2 > 1 {
            mip_height / 2
        } else {
            1
        };
        blits.push(
            MipBlit {
                level,
                src_width: mip_width,
                src_height: mip_height,
                dst_width: next_width,
                dst_height: next_height,
            },
        );
        mip_width = next_width;
        mip_height = next_height;
        level = level + 1;
    }
    blits
}

/// Number of elements the compute self-check squares.
pub const COMPUTE_ELEMENT_COUNT: u32 = 256;

/// Invocations per compute workgroup.
pub const COMPUTE_WORKGROUP_SIZE: u32 = 64;

/// Workgroups needed to cover `count` elements.
pub fn workgroup_count(count: u32, group_size: u32) -> (groups: u32)
    requires
        group_size > 0,
    ensures
        groups as int * group_size >= count,
        (groups as int - 1) * group_size < count || groups == 0,
{
    let q = count / group_size;
    let r = count % group_size;
    assert(count == q * group_size + r && r < group_size) by (nonlinear_arith)
        requires
            group_size > 0,
            q == count / group_size,
            r == count % group_size,
    ;
    if r == 0 {
        assert(q as int * group_size >= count);
        assert((q as int - 1) * group_size < count || q == 0) by (nonlinear_arith)
            requires
                count == q * group_size,
                group_size > 0,
        ;
        q
    } else {
        assert(q < u32::MAX) by (nonlinear_arith)
            requires
                count == q * group_size + r,
                r >= 1,
                group_size >= 1,
                count <= u32::MAX,
        ;
        assert((q + 1) as int * group_size >= count) by (nonlinear_arith)
            requires
                count == q * group_size + r,
                r < group_size,
        ;
        q + 1
    }
}

/// A read-back element that is not the square of its index.
#[derive(Clone, Copy, Debug, PartialEq, Eq, Structural)]
pub struct ComputeMismatch {
    pub index: u32,
    pub actual: u32,
    pub expected: u32,
}

/// Checks the compute self-check's output: element `i`, read as a word
/// in the byte order of the host that read it back (`little_endian` says
/// which), must be `i * i`. Trailing bytes that do not make a
/// whole word are ignored. Reports the first element that differs.
pub fn check_squares(raw: &[u8], little_endian: bool) -> (verdict: Result<(), ComputeMismatch>)
    requires
        raw@.len() / 4 <= 65536,
    ensures
        match verdict {
            Ok(()) => forall|i: int|
                0 <= i < raw@.len() / 4 ==> #[trigger] spec_u32_in_order(raw@, 4 * i, little_endian) == i * i,
            Err(m) => {
                &&& 0 <= m.index < raw@.len() / 4
                &&& m.actual == spec_u32_in_order(raw@, 4 * m.index, little_endian)
                &&& m.expected == m.index * m.index
                &&& m.actual != m.expected
                &&& forall|i: int| 0 <= i < m.index ==> #[trigger] spec_u32_in_order(raw@, 4 * i, little_endian) == i * i
            },
        },
{
    let count = raw.len() / 4;
    let mut i: usize = 0;
    while i < count
        invariant
            count == raw@.len() / 4,
            count <= 65536,
            0 <= i <= count,
            forall|j: int| 0 <= j < i ==> #[trigger] spec_u32_in_order(raw@, 4 * j, little_endian) == j * j,
        decreases count - i,
    {
        let len = raw.len();
        assert(4 * i + 4 <= len) by (nonlinear_arith)
            requires
                i < count,
                count == len / 4,
        ;
        let actual = u32_in_order(raw, 4 * i, little_endian);
        let index = i as u32;
        assert(index * index <= 65535 * 65535) by (nonlinear_arith)
            requires
                index < 65536,
        ;
        let expected = index * index;
        if actual != expected {
            return Err(ComputeMismatch { index, actual, expected });
        }
        i = i + 1;
    }
    Ok(())
}

} // verus!
