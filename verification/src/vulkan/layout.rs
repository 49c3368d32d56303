//! Byte layouts of the data the renderer uploads to the GPU. Every layout is
//! a run of 32-bit little-endian words; 64-bit device addresses take two
//! words, low word first.

use vstd::prelude::*;
use crate::asset::MeshVertex;
use crate::bytes::{spec_le_u32, spec_u32_le_bytes, push_u32_le, lemma_u32_le_round_trip};
use crate::shader::spec_spirv_words;
use crate::glm::F32_ZERO_BITS;
use crate::scene::RenderTransform;

verus! {

/// The little-endian bytes of a run of words.
pub open spec fn spec_words_bytes(words: Seq<u32>) -> Seq<u8>
    decreases words.len(),
{
    if words.len() == 0 {
        Seq::empty()
    } else {
        spec_words_bytes(words.drop_last()) + spec_u32_le_bytes(words.last())
    }
}

/// Serializes words as little-endian bytes.
pub fn words_to_bytes(words: &[u32]) -> (bytes: Vec<u8>)
    ensures
        bytes@ == spec_words_bytes(words@),
        bytes@.len() == 4 * words@.len(),
{
    let mut bytes: Vec<u8> = Vec::new();
    let mut i: usize = 0;
    while i < words.len()
        invariant
            0 <= i <= words@.len(),
            bytes@ == spec_words_bytes(words@.take(i as int)),
            bytes@.len() == 4 * i,
        decreases words@.len() - i,
    {
        push_u32_le(&mut bytes, words[i]);
        assert(words@.take(i + 1).drop_last() =~= words@.take(i as int));
        i = i + 1;
    }
    assert(words@.take(words@.len() as int) =~= words@);
    bytes
}

/// Byte `4 * i + k` of a run of words is byte `k` of word `i`.
proof fn lemma_words_bytes_index(words: Seq<u32>)
    ensures
        spec_words_bytes(words).len() == 4 * words.len(),
        forall|i: int, k: int|
            0 <= i < words.len() && 0 <= k < 4 ==> #[trigger] spec_words_bytes(words)[4 * i + k]
                == spec_u32_le_bytes(words[i])[k],
    decreases words.len(),
{
    if words.len() > 0 {
        let init = words.drop_last();
        lemma_words_bytes_index(init);
        assert forall|i: int, k: int| 0 <= i < words.len() && 0 <= k < 4 implies #[trigger] spec_words_bytes(
            words,
        )[4 * i + k] == spec_u32_le_bytes(words[i])[k] by {
            if i < init.len() {
                assert(init[i] == words[i]);
            }
        }
    }
}

/// Reading SPIR-V words back from the bytes that [`words_to_bytes`] writes
/// gives the words: the two conversions are inverse.
pub proof fn lemma_words_bytes_round_trip(words: Seq<u32>)
    ensures
        spec_words_bytes(words).len() % 4 == 0,
        spec_spirv_words(spec_words_bytes(words)) == words,
{
    lemma_words_bytes_index(words);
    let bytes = spec_words_bytes(words);
    assert forall|i: int| 0 <= i < words.len() implies #[trigger] spec_le_u32(bytes, 4 * i) == words[i] by {
        lemma_u32_le_round_trip(words[i]);
        let b = spec_u32_le_bytes(words[i]);
        assert(bytes[4 * i + 0] == b[0]);
        assert(bytes[4 * i + 1] == b[1]);
        assert(bytes[4 * i + 2] == b[2]);
        assert(bytes[4 * i + 3] == b[3]);
    }
    assert(spec_spirv_words(bytes) =~= words);
}

/// Low word of a 64-bit value.
pub open spec fn lo(w: u64) -> u32 {
    (w % 0x1_0000_0000) as u32
}

/// High word of a 64-bit value.
pub open spec fn hi(w: u64) -> u32 {
    (w / 0x1_0000_0000) as u32
}

fn split_u64(w: u64) -> (words: (u32, u32))
    ensures
        words.0 == lo(w),
        words.1 == hi(w),
{
    ((w % 0x1_0000_0000) as u32, (w / 0x1_0000_0000) as u32)
}

/// Words of one vertex as the shader reads it: position, color, then the
/// UV pair padded to four components.
pub open spec fn spec_vertex_words(v: MeshVertex) -> Seq<u32> {
    seq![
        v.position.x, v.position.y, v.position.z, v.position.w,
        v.color.x, v.color.y, v.color.z, v.color.w,
        v.uv.x, v.uv.y, F32_ZERO_BITS, F32_ZERO_BITS,
    ]
}

/// Words of a run of vertices, one after another.
pub open spec fn spec_vertices_words(vs: Seq<MeshVertex>) -> Seq<u32>
    decreases vs.len(),
{
    if vs.len() == 0 {
        Seq::empty()
    } else {
        spec_vertices_words(vs.drop_last()) + spec_vertex_words(vs.last())
    }
}

/// Alignment in bytes of the vector types the shaders read.
pub const GPU_VECTOR_ALIGNMENT: usize = 16;

/// Vertex `k` occupies words `12 * k .. 12 * k + 12`: every vertex record
/// starts on a 16-byte boundary and holds exactly its own words.
pub proof fn lemma_vertex_records_aligned(vs: Seq<MeshVertex>)
    ensures
        spec_vertices_words(vs).len() == 12 * vs.len(),
        forall|k: int|
            0 <= k < vs.len() ==> (4 * (12 * k)) % (GPU_VECTOR_ALIGNMENT as int) == 0
                && #[trigger] spec_vertices_words(vs).subrange(12 * k, 12 * k + 12)
                == spec_vertex_words(vs[k]),
    decreases vs.len(),
{
    if vs.len() > 0 {
        let init = vs.drop_last();
        lemma_vertex_records_aligned(init);
        let all = spec_vertices_words(vs);
        assert forall|k: int| 0 <= k < vs.len() implies (4 * (12 * k)) % (GPU_VECTOR_ALIGNMENT as int) == 0
            && #[trigger] all.subrange(12 * k, 12 * k + 12) == spec_vertex_words(vs[k]) by {
            if k < init.len() {
                assert(init[k] == vs[k]);
                assert(all.subrange(12 * k, 12 * k + 12) =~= spec_vertices_words(init).subrange(
                    12 * k,
                    12 * k + 12,
                ));
            } else {
                assert(all.subrange(12 * k, 12 * k + 12) =~= spec_vertex_words(vs.last()));
            }
        }
    }
}

/// Lays out mesh vertices for upload, twelve words each.
pub fn vertex_words(vertices: &[MeshVertex]) -> (words: Vec<u32>)
    ensures
        words@ == spec_vertices_words(vertices@),
{
    let mut words: Vec<u32> = Vec::new();
    let mut i: usize = 0;
    while i < vertices.len()
        invariant
            0 <= i <= vertices@.len(),
            words@ == spec_vertices_words(vertices@.take(i as int)),
        decreases vertices@.len() - i,
    {
        let v = vertices[i];
        let ghost before = words@;
        words.push(v.position.x);
        words.push(v.position.y);
        words.push(v.position.z);
        words.push(v.position.w);
        words.push(v.color.x);
        words.push(v.color.y);
        words.push(v.color.z);
        words.push(v.color.w);
        words.push(v.uv.x);
        words.push(v.uv.y);
        words.push(F32_ZERO_BITS);
        words.push(F32_ZERO_BITS);
        assert(words@ =~= before + spec_vertex_words(v));
        assert(vertices@.take(i + 1).drop_last() =~= vertices@.take(i as int));
        i = i + 1;
    }
    assert(vertices@.take(vertices@.len() as int) =~= vertices@);
    words
}

/// Words of one model transform as the shader reads it: the matrix row by
/// row.
pub open spec fn spec_transform_words(t: RenderTransform) -> Seq<u32> {
    Seq::new(16, |i: int| t.spec_model_matrix().at(i / 4, i % 4))
}

/// Words of a run of transforms, one after another.
pub open spec fn spec_transforms_words(ts: Seq<RenderTransform>) -> Seq<u32>
    decreases ts.len(),
{
    if ts.len() == 0 {
        Seq::empty()
    } else {
        spec_transforms_words(ts.drop_last()) + spec_transform_words(ts.last())
    }
}

/// Transform `k` occupies words `16 * k .. 16 * k + 16`: every transform
/// record starts on a 16-byte boundary and holds exactly its own words.
pub proof fn lemma_transform_records_aligned(ts: Seq<RenderTransform>)
    ensures
        spec_transforms_words(ts).len() == 16 * ts.len(),
        forall|k: int|
            0 <= k < ts.len() ==> (4 * (16 * k)) % (GPU_VECTOR_ALIGNMENT as int) == 0
                && #[trigger] spec_transforms_words(ts).subrange(16 * k, 16 * k + 16)
                == spec_transform_words(ts[k]),
    decreases ts.len(),
{
    if ts.len() > 0 {
        let init = ts.drop_last();
        lemma_transform_records_aligned(init);
        let all = spec_transforms_words(ts);
        assert forall|k: int| 0 <= k < ts.len() implies (4 * (16 * k)) % (
        GPU_VECTOR_ALIGNMENT as int) == 0 && #[trigger] all.subrange(16 * k, 16 * k + 16)
            == spec_transform_words(ts[k]) by {
            if k < init.len() {
                assert(init[k] == ts[k]);
                assert(all.subrange(16 * k, 16 * k + 16) =~= spec_transforms_words(init).subrange(
                    16 * k,
                    16 * k + 16,
                ));
            } else {
                assert(all.subrange(16 * k, 16 * k + 16) =~= spec_transform_words(ts.last()));
            }
        }
    }
}

/// Lays out model transforms for upload, sixteen words each, row by row.
pub fn transform_words(transforms: &[RenderTransform]) -> (words: Vec<u32>)
    ensures
        words@ == spec_transforms_words(transforms@),
{
    let mut words: Vec<u32> = Vec::new();
    let mut i: usize = 0;
    while i < transforms.len()
        invariant
            0 <= i <= transforms@.len(),
            words@ == spec_transforms_words(transforms@.take(i as int)),
        decreases transforms@.len() - i,
    {
        let t = transforms[i];
        let m = t.model_matrix();
        let ghost before = words@;
        let mut r: usize = 0;
        while r < 4
            invariant
                0 <= r <= 4,
                m == t.spec_model_matrix(),
                words@ == before + spec_transform_words(t).take(4 * r),
            decreases 4 - r,
        {
            let mut c: usize = 0;
            while c < 4
                invariant
                    0 <= r < 4,
                    0 <= c <= 4,
                    m == t.spec_model_matrix(),
                    words@ == before + spec_transform_words(t).take(4 * r + c),
                decreases 4 - c,
            {
                words.push(m.rows[r][c]);
                assert(spec_transform_words(t)[4 * r + c] == m.at(r as int, c as int)) by {
                    assert((4 * r + c) / 4 == r as int);
                    assert((4 * r + c) % 4 == c as int);
                }
                assert(spec_transform_words(t).take(4 * r + c + 1) =~= spec_transform_words(t).take(
                    4 * r + c,
                ).push(m.at(r as int, c as int)));
                c = c + 1;
            }
            r = r + 1;
        }
        assert(spec_transform_words(t).take(16) =~= spec_transform_words(t));
        assert(transforms@.take(i + 1).drop_last() =~= transforms@.take(i as int));
        i = i + 1;
    }
    assert(transforms@.take(transforms@.len() as int) =~= transforms@);
    words
}

/// Words of a material record: the albedo texture index, padded to four
/// words.
pub open spec fn spec_material_words(albedo_texture_index: u32) -> Seq<u32> {
    seq![albedo_texture_index, 0, 0, 0]
}

/// Lays out a material record for upload.
pub fn material_words(albedo_texture_index: u32) -> (words: Vec<u32>)
    ensures
        words@ == spec_material_words(albedo_texture_index),
{
    let words = vec![albedo_texture_index, 0, 0, 0];
    assert(words@ =~= spec_material_words(albedo_texture_index));
    words
}

/// Size in bytes of the draw push constants: three device addresses.
pub const DRAW_PUSH_CONSTANT_SIZE: u32 = 24;

/// Words of the draw push constants: addresses of the draw items, the
/// material table and the scene data.
pub open spec fn spec_draw_push_constant_words(draws: u64, materials: u64, scene: u64) -> Seq<u32> {
    seq![lo(draws), hi(draws), lo(materials), hi(materials), lo(scene), hi(scene)]
}

/// Lays out the draw push constants.
pub fn draw_push_constant_words(draws: u64, materials: u64, scene: u64) -> (words: Vec<u32>)
    ensures
        words@ == spec_draw_push_constant_words(draws, materials, scene),
        4 * words@.len() == DRAW_PUSH_CONSTANT_SIZE,
{
    let (d0, d1) = split_u64(draws);
    let (m0, m1) = split_u64(materials);
    let (s0, s1) = split_u64(scene);
    let words = vec![d0, d1, m0, m1, s0, s1];
    assert(words@ =~= spec_draw_push_constant_words(draws, materials, scene));
    words
}

/// Size in bytes of the compute self-check push constants.
pub const COMPUTE_PUSH_CONSTANT_SIZE: u32 = 16;

/// Words of the compute self-check push constants: output address, element
/// count, padding.
pub open spec fn spec_compute_push_constant_words(output: u64, count: u32) -> Seq<u32> {
    seq![lo(output), hi(output), count, 0]
}

/// Lays out the compute self-check push constants.
pub fn compute_push_constant_words(output: u64, count: u32) -> (words: Vec<u32>)
    ensures
        words@ == spec_compute_push_constant_words(output, count),
        4 * words@.len() == COMPUTE_PUSH_CONSTANT_SIZE,
{
    let (o0, o1) = split_u64(output);
    let words = vec![o0, o1, count, 0];
    assert(words@ =~= spec_compute_push_constant_words(output, count));
    words
}

} // verus!
