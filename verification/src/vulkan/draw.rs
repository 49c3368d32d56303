//! The indirect draw list: one draw per scene object.

use vstd::prelude::*;
use crate::scene::RenderObject;
use crate::vulkan::layout::{hi, lo};

verus! {

/// Size in bytes of one indirect draw command.
pub const DRAW_INDIRECT_COMMAND_SIZE: u32 = 16;

/// Why the draws of a scene could not be resolved.
#[derive(Clone, Copy, Debug, PartialEq, Eq, Structural)]
pub enum DrawSetupError {
    /// Material index for a generated draw item was not available.
    MaterialIndexUnavailable { index: usize },
    /// Mesh index for a generated draw item was not available.
    MeshIndexUnavailable { index: usize },
    /// Transform index for a generated draw item was not available.
    TransformIndexUnavailable { index: usize },
}

/// The position in a table of `count` entries that `index` refers to, as a
/// 32-bit index, when it is in range and fits.
pub open spec fn spec_table_index(index: usize, count: usize) -> Option<u32> {
    if index < count && index <= u32::MAX {
        Some(index as u32)
    } else {
        None
    }
}

/// Returns the 32-bit index of entry `index` of a table of `count`
/// entries, when there is one.
pub fn table_index(index: usize, count: usize) -> (found: Option<u32>)
    ensures
        found == spec_table_index(index, count),
{
    if index < count && index <= u32::MAX as usize {
        Some(index as u32)
    } else {
        None
    }
}

/// What one draw uses: the mesh, the material record and the transform.
#[derive(Clone, Copy, Debug, PartialEq, Eq, Structural)]
pub struct DrawInput {
    pub mesh: usize,
    pub material: u32,
    pub transform: u32,
}

/// The draw for object `index`, or the first reference of it that is
/// missing: mesh, then material, then transform.
pub open spec fn spec_draw_input(
    object: RenderObject,
    index: usize,
    mesh_count: usize,
    material_count: usize,
    transform_count: usize,
) -> Result<DrawInput, DrawSetupError> {
    if object.spec_mesh_index() >= mesh_count {
        Err(DrawSetupError::MeshIndexUnavailable { index })
    } else if spec_table_index(object.spec_material_index(), material_count) is None {
        Err(DrawSetupError::MaterialIndexUnavailable { index })
    } else if spec_table_index(index, transform_count) is None {
        Err(DrawSetupError::TransformIndexUnavailable { index })
    } else {
        Ok(
            DrawInput {
                mesh: object.spec_mesh_index(),
                material: object.spec_material_index() as u32,
                transform: index as u32,
            },
        )
    }
}

/// Resolves the draw of every object, in order, failing at the first
/// object with a missing reference.
pub fn resolve_draw_inputs(
    objects: &[RenderObject],
    mesh_count: usize,
    material_count: usize,
    transform_count: usize,
) -> (inputs: Result<Vec<DrawInput>, DrawSetupError>)
    ensures
        match inputs {
            Ok(v) => v@.len() == objects@.len() && forall|i: int|
                0 <= i < objects@.len() ==> spec_draw_input(
                    #[trigger] objects@[i],
                    i as usize,
                    mesh_count,
                    material_count,
                    transform_count,
                ) == Ok::<DrawInput, DrawSetupError>(v@[i]),
            Err(e) => exists|k: int|
                0 <= k < objects@.len() && spec_draw_input(
                    #[trigger] objects@[k],
                    k as usize,
                    mesh_count,
                    material_count,
                    transform_count,
                ) == Err::<DrawInput, DrawSetupError>(e) && forall|i: int|
                    0 <= i < k ==> spec_draw_input(
                        #[trigger] objects@[i],
                        i as usize,
                        mesh_count,
                        material_count,
                        transform_count,
                    ) is Ok,
        },
{
    let mut inputs: Vec<DrawInput> = Vec::with_capacity(objects.len());
    let mut index: usize = 0;
    while index < objects.len()
        invariant
            0 <= index <= objects@.len(),
            inputs@.len() == index,
            forall|i: int|
                0 <= i < index ==> spec_draw_input(
                    #[trigger] objects@[i],
                    i as usize,
                    mesh_count,
                    material_count,
                    transform_count,
                ) == Ok::<DrawInput, DrawSetupError>(inputs@[i]),
        decreases objects@.len() - index,
    {
        let object = objects[index];
        let mesh = object.mesh_index();
        if mesh >= mesh_count {
            return Err(DrawSetupError::MeshIndexUnavailable { index });
        }
        let material = match table_index(object.material_index(), material_count) {
            Some(m) => m,
            None => return Err(DrawSetupError::MaterialIndexUnavailable { index }),
        };
        let transform = match table_index(index, transform_count) {
            Some(t) => t,
            None => return Err(DrawSetupError::TransformIndexUnavailable { index }),
        };
        inputs.push(DrawInput { mesh, material, transform });
        index = index + 1;
    }
    Ok(inputs)
}

/// What an uploaded mesh offers a draw.
#[derive(Clone, Copy, Debug, PartialEq, Eq, Structural)]
pub struct MeshBuffers {
    pub vertex_address: u64,
    pub index_address: u64,
    pub index_count: u32,
}

/// Why a draw list could not be built.
#[derive(Clone, Copy, Debug, PartialEq, Eq, Structural)]
pub enum DrawListError {
    /// Draw buffer device address is null.
    NullDeviceAddress,
    /// Draw list must contain at least one draw item.
    EmptyDraws,
    /// Draw count does not fit a `u32`.
    DrawCountTooLarge { count: usize },
}

/// Words of the draw item of one draw: vertex and index buffer addresses,
/// the material index, and padding to eight words.
pub open spec fn spec_draw_item_words(mesh: MeshBuffers, material: u32) -> Seq<u32> {
    seq![
        lo(mesh.vertex_address),
        hi(mesh.vertex_address),
        lo(mesh.index_address),
        hi(mesh.index_address),
        material,
        0,
        0,
        0,
    ]
}

/// Words of the indirect command of one draw: all of the mesh's indices,
/// one instance, from the start.
pub open spec fn spec_indirect_words(mesh: MeshBuffers) -> Seq<u32> {
    seq![mesh.index_count, 1, 0, 0]
}

/// Words of the draw items of the first `n` draws.
pub open spec fn spec_draw_items(draws: Seq<DrawInput>, meshes: Seq<MeshBuffers>, n: nat) -> Seq<u32>
    decreases n,
{
    if n == 0 {
        Seq::empty()
    } else {
        spec_draw_items(draws, meshes, (n - 1) as nat) + spec_draw_item_words(
            meshes[draws[n - 1].mesh as int],
            draws[n - 1].material,
        )
    }
}

/// Words of the indirect commands of the first `n` draws.
pub open spec fn spec_indirect_commands(draws: Seq<DrawInput>, meshes: Seq<MeshBuffers>, n: nat) -> Seq<u32>
    decreases n,
{
    if n == 0 {
        Seq::empty()
    } else {
        spec_indirect_commands(draws, meshes, (n - 1) as nat) + spec_indirect_words(
            meshes[draws[n - 1].mesh as int],
        )
    }
}

/// The contents of the two draw buffers and the number of draws.
pub struct DrawListData {
    pub item_words: Vec<u32>,
    pub indirect_words: Vec<u32>,
    pub draw_count: u32,
}

/// Lays out the draw items and indirect commands of the draws.
pub fn build_draw_list(draws: &[DrawInput], meshes: &[MeshBuffers]) -> (list: Result<
    DrawListData,
    DrawListError,
>)
    requires
        forall|i: int| 0 <= i < draws@.len() ==> (#[trigger] draws@[i]).mesh < meshes@.len(),
    ensures
        match list {
            Ok(l) => {
                &&& draws@.len() > 0
                &&& l.draw_count == draws@.len()
                &&& l.item_words@ == spec_draw_items(draws@, meshes@, draws@.len())
                &&& l.indirect_words@ == spec_indirect_commands(draws@, meshes@, draws@.len())
            },
            Err(DrawListError::EmptyDraws) => draws@.len() == 0,
            Err(DrawListError::DrawCountTooLarge { count }) => count == draws@.len()
                && count > u32::MAX,
            Err(_) => false,
        },
{
    if draws.len() == 0 {
        return Err(DrawListError::EmptyDraws);
    }
    if draws.len() > u32::MAX as usize {
        return Err(DrawListError::DrawCountTooLarge { count: draws.len() });
    }
    let draw_count = draws.len() as u32;
    let mut item_words: Vec<u32> = Vec::new();
    let mut indirect_words: Vec<u32> = Vec::new();
    let mut i: usize = 0;
    while i < draws.len()
        invariant
            0 <= i <= draws@.len(),
            forall|j: int| 0 <= j < draws@.len() ==> (#[trigger] draws@[j]).mesh < meshes@.len(),
            item_words@ == spec_draw_items(draws@, meshes@, i as nat),
            indirect_words@ == spec_indirect_commands(draws@, meshes@, i as nat),
        decreases draws@.len() - i,
    {
        let draw = draws[i];
        assert(draw.mesh < meshes@.len());
        let mesh = meshes[draw.mesh];
        let ghost items_before = item_words@;
        let ghost indirect_before = indirect_words@;
        item_words.push((mesh.vertex_address % 0x1_0000_0000) as u32);
        item_words.push((mesh.vertex_address / 0x1_0000_0000) as u32);
        item_words.push((mesh.index_address % 0x1_0000_0000) as u32);
        item_words.push((mesh.index_address / 0x1_0000_0000) as u32);
        item_words.push(draw.material);
        item_words.push(0);
        item_words.push(0);
        item_words.push(0);
        indirect_words.push(mesh.index_count);
        indirect_words.push(1);
        indirect_words.push(0);
        indirect_words.push(0);
        assert(item_words@ =~= items_before + spec_draw_item_words(mesh, draw.material));
        assert(indirect_words@ =~= indirect_before + spec_indirect_words(mesh));
        i = i + 1;
    }
    Ok(DrawListData { item_words, indirect_words, draw_count })
}

/// Checks that a buffer the shaders address directly received an address.
pub fn require_device_address(address: u64) -> (checked: Result<u64, DrawListError>)
    ensures
        match checked {
            Ok(a) => address != 0 && a == address,
            Err(e) => address == 0 && e == DrawListError::NullDeviceAddress,
        },
{
    if address == 0 {
        Err(DrawListError::NullDeviceAddress)
    } else {
        Ok(address)
    }
}

} // verus!
