//! Small vectors and matrices of single-precision numbers.
//!
//! Every component is held as its IEEE-754 bit pattern, the value
//! `f32::to_bits` gives: the library moves these numbers around but never
//! computes with them, so it needs nothing more than their exact bits.

use vstd::prelude::*;

verus! {

/// Bit pattern of `0.0_f32`.
pub const F32_ZERO_BITS: u32 = 0x0000_0000;

/// Bit pattern of `1.0_f32`.
pub const F32_ONE_BITS: u32 = 0x3f80_0000;

/// Four bytes, such as an RGBA8 color.
#[derive(Clone, Copy, Debug, Default, PartialEq, Eq, Structural)]
pub struct U8Vec4 {
    pub x: u8,
    pub y: u8,
    pub z: u8,
    pub w: u8,
}

impl U8Vec4 {
    /// Creates the vector from its four components.
    pub fn new(x: u8, y: u8, z: u8, w: u8) -> (v: Self)
        ensures
            v == (U8Vec4 { x, y, z, w }),
    {
        U8Vec4 { x, y, z, w }
    }

    /// The components in order x, y, z, w.
    pub open spec fn spec_bytes(self) -> Seq<u8> {
        seq![self.x, self.y, self.z, self.w]
    }

    /// Returns the components in order x, y, z, w.
    pub fn to_vec(&self) -> (bytes: Vec<u8>)
        ensures
            bytes@ == self.spec_bytes(),
    {
        let bytes = vec![self.x, self.y, self.z, self.w];
        assert(bytes@ =~= self.spec_bytes());
        bytes
    }
}

/// Two single-precision numbers, as bit patterns.
#[derive(Clone, Copy, Debug, Default, PartialEq, Eq, Structural)]
pub struct Vec2 {
    pub x: u32,
    pub y: u32,
}

impl Vec2 {
    /// Creates the vector from the bit patterns of its components.
    pub fn new(x: u32, y: u32) -> (v: Self)
        ensures
            v == (Vec2 { x, y }),
    {
        Vec2 { x, y }
    }
}

/// Three single-precision numbers, as bit patterns.
#[derive(Clone, Copy, Debug, Default, PartialEq, Eq, Structural)]
pub struct Vec3 {
    pub x: u32,
    pub y: u32,
    pub z: u32,
}

impl Vec3 {
    /// Creates the vector from the bit patterns of its components.
    pub fn new(x: u32, y: u32, z: u32) -> (v: Self)
        ensures
            v == (Vec3 { x, y, z }),
    {
        Vec3 { x, y, z }
    }
}

/// Four single-precision numbers, as bit patterns.
#[derive(Clone, Copy, Debug, Default, PartialEq, Eq, Structural)]
pub struct Vec4 {
    pub x: u32,
    pub y: u32,
    pub z: u32,
    pub w: u32,
}

impl Vec4 {
    /// Creates the vector from the bit patterns of its components.
    pub fn new(x: u32, y: u32, z: u32, w: u32) -> (v: Self)
        ensures
            v == (Vec4 { x, y, z, w }),
    {
        Vec4 { x, y, z, w }
    }

    /// The vector whose four components are all `value`.
    pub fn repeat(value: u32) -> (v: Self)
        ensures
            v == (Vec4 { x: value, y: value, z: value, w: value }),
    {
        Vec4 { x: value, y: value, z: value, w: value }
    }
}

/// A 4x4 single-precision matrix, row by row, as bit patterns.
#[derive(Clone, Copy, Debug, PartialEq, Eq)]
pub struct Mat4 {
    pub rows: [[u32; 4]; 4],
}

impl Mat4 {
    /// Entry at `row` and `column`.
    pub open spec fn at(self, row: int, column: int) -> u32 {
        self.rows@[row]@[column]
    }

    /// Creates the matrix from its sixteen entries, row by row.
    pub fn from_rows(rows: [[u32; 4]; 4]) -> (m: Self)
        ensures
            m.rows == rows,
    {
        Mat4 { rows }
    }

    /// Whether the matrix is the identity: ones on the diagonal, zeros
    /// elsewhere.
    pub open spec fn spec_is_identity(self) -> bool {
        forall|r: int, c: int|
            0 <= r < 4 && 0 <= c < 4 ==> #[trigger] self.at(r, c) == if r == c {
                F32_ONE_BITS
            } else {
                F32_ZERO_BITS
            }
    }

    /// The identity matrix.
    pub fn identity() -> (m: Self)
        ensures
            m.spec_is_identity(),
    {
        let rows = [
            [F32_ONE_BITS, F32_ZERO_BITS, F32_ZERO_BITS, F32_ZERO_BITS],
            [F32_ZERO_BITS, F32_ONE_BITS, F32_ZERO_BITS, F32_ZERO_BITS],
            [F32_ZERO_BITS, F32_ZERO_BITS, F32_ONE_BITS, F32_ZERO_BITS],
            [F32_ZERO_BITS, F32_ZERO_BITS, F32_ZERO_BITS, F32_ONE_BITS],
        ];
        let m = Mat4 { rows };
        assert(m.spec_is_identity()) by {
            assert forall|r: int, c: int| 0 <= r < 4 && 0 <= c < 4 implies #[trigger] m.at(r, c)
                == if r == c {
                F32_ONE_BITS
            } else {
                F32_ZERO_BITS
            } by {
                if r == 0 {
                } else if r == 1 {
                } else if r == 2 {
                } else {
                }
            }
        }
        m
    }
}

} // verus!
