//! CPU-side meshes and materials.

use vstd::prelude::*;
use crate::glm::{F32_ONE_BITS, Vec2, Vec4};
use crate::texture::{TextureData, TextureModel, label_as_str, label_view};

verus! {

/// CPU-side mesh vertex consumed by renderer backends.
#[derive(Clone, Copy, Debug, PartialEq, Eq, Structural)]
pub struct MeshVertex {
    /// Homogeneous clip-space or object-space position.
    pub position: Vec4,
    /// Vertex color multiplier.
    pub color: Vec4,
    /// Two-dimensional texture coordinates.
    pub uv: Vec2,
}

impl MeshVertex {
    /// Creates a vertex from position, color, and UV coordinates.
    pub fn new(position: Vec4, color: Vec4, uv: Vec2) -> (vertex: Self)
        ensures
            vertex == (MeshVertex { position, color, uv }),
    {
        Self { position, color, uv }
    }
}

/// Errors returned while creating CPU mesh data.
#[derive(Clone, Copy, Debug, PartialEq, Eq, Structural)]
pub enum MeshDataError {
    /// Mesh has no vertices.
    EmptyVertices,
    /// Mesh has no indices.
    EmptyIndices,
}

impl MeshDataError {
    /// The message that describes the error.
    pub open spec fn spec_message(self) -> Seq<char> {
        match self {
            MeshDataError::EmptyVertices => "mesh data must contain at least one vertex"@,
            MeshDataError::EmptyIndices => "mesh data must contain at least one index"@,
        }
    }

    /// Returns the message that describes the error.
    pub fn message(&self) -> (message: &'static str)
        ensures
            message@ == self.spec_message(),
    {
        match self {
            MeshDataError::EmptyVertices => "mesh data must contain at least one vertex",
            MeshDataError::EmptyIndices => "mesh data must contain at least one index",
        }
    }
}

/// What a mesh holds.
pub struct MeshModel {
    pub vertices: Seq<MeshVertex>,
    pub indices: Seq<u32>,
}

/// CPU-side indexed mesh data ready for GPU upload: at least one vertex and
/// at least one index.
#[derive(Debug, PartialEq)]
pub struct MeshData {
    vertices: Vec<MeshVertex>,
    indices: Vec<u32>,
}

impl View for MeshData {
    type V = MeshModel;

    closed spec fn view(&self) -> MeshModel {
        MeshModel { vertices: self.vertices@, indices: self.indices@ }
    }
}

impl Clone for MeshData {
    fn clone(&self) -> (copy: Self)
        ensures
            copy@ == self@,
    {
        proof {
            use_type_invariant(self);
        }
        let vertices = self.vertices.clone();
        let indices = self.indices.clone();
        assert(vertices@ =~= self.vertices@);
        assert(indices@ =~= self.indices@);
        MeshData { vertices, indices }
    }
}

impl MeshData {
    #[verifier::type_invariant]
    closed spec fn non_empty(self) -> bool {
        self.vertices@.len() > 0 && self.indices@.len() > 0
    }

    /// The outcome of creating a mesh: vertices are checked before indices.
    pub open spec fn spec_new(vertices: Seq<MeshVertex>, indices: Seq<u32>) -> Result<
        MeshModel,
        MeshDataError,
    > {
        if vertices.len() == 0 {
            Err(MeshDataError::EmptyVertices)
        } else if indices.len() == 0 {
            Err(MeshDataError::EmptyIndices)
        } else {
            Ok(MeshModel { vertices, indices })
        }
    }

    /// Creates validated indexed mesh data.
    pub fn new(vertices: Vec<MeshVertex>, indices: Vec<u32>) -> (mesh: Result<Self, MeshDataError>)
        ensures
            match (mesh, Self::spec_new(vertices@, indices@)) {
                (Ok(m), Ok(model)) => m@ == model,
                (Err(e), Err(f)) => e == f,
                _ => false,
            },
    {
        if vertices.len() == 0 {
            return Err(MeshDataError::EmptyVertices);
        }
        if indices.len() == 0 {
            return Err(MeshDataError::EmptyIndices);
        }
        Ok(MeshData { vertices, indices })
    }

    /// Returns mesh vertices.
    pub fn vertices(&self) -> (vertices: &[MeshVertex])
        ensures
            vertices@ == self@.vertices,
            vertices@.len() > 0,
    {
        proof {
            use_type_invariant(self);
        }
        self.vertices.as_slice()
    }

    /// Returns mesh indices.
    pub fn indices(&self) -> (indices: &[u32])
        ensures
            indices@ == self@.indices,
            indices@.len() > 0,
    {
        proof {
            use_type_invariant(self);
        }
        self.indices.as_slice()
    }
}

/// What a material holds.
pub struct MaterialModel {
    pub label: Option<Seq<char>>,
    pub albedo_texture: Option<TextureModel>,
    pub tint: Vec4,
}

/// CPU-side material data used to build renderer material tables.
#[derive(Debug, PartialEq)]
pub struct MaterialData {
    label: Option<String>,
    albedo_texture: Option<TextureData>,
    tint: Vec4,
}

/// The view of an optional texture.
pub open spec fn texture_view(texture: Option<TextureData>) -> Option<TextureModel> {
    match texture {
        Some(t) => Some(t@),
        None => None,
    }
}

impl View for MaterialData {
    type V = MaterialModel;

    closed spec fn view(&self) -> MaterialModel {
        MaterialModel {
            label: label_view(self.label),
            albedo_texture: texture_view(self.albedo_texture),
            tint: self.tint,
        }
    }
}

impl Clone for MaterialData {
    fn clone(&self) -> (copy: Self)
        ensures
            copy@ == self@,
    {
        let label = match &self.label {
            Some(l) => Some(l.clone()),
            None => None,
        };
        let albedo_texture = match &self.albedo_texture {
            Some(t) => Some(t.clone()),
            None => None,
        };
        MaterialData { label, albedo_texture, tint: self.tint }
    }
}

impl Default for MaterialData {
    /// The default material: no label, no texture, white tint.
    fn default() -> (material: Self)
        ensures
            material@.label.is_none(),
            material@.albedo_texture.is_none(),
            material@.tint == Vec4::repeat_spec(F32_ONE_BITS),
    {
        MaterialData { label: None, albedo_texture: None, tint: Vec4::repeat(F32_ONE_BITS) }
    }
}

impl Vec4 {
    /// The vector whose four components are all `value`.
    pub open spec fn repeat_spec(value: u32) -> Vec4 {
        Vec4 { x: value, y: value, z: value, w: value }
    }
}

impl MaterialData {
    /// Creates an unnamed, untextured material with the supplied tint.
    pub fn tinted(tint: Vec4) -> (material: Self)
        ensures
            material@.label.is_none(),
            material@.albedo_texture.is_none(),
            material@.tint == tint,
    {
        MaterialData { label: None, albedo_texture: None, tint }
    }

    /// Sets a debug/source label for this material.
    pub fn with_label(self, label: &str) -> (material: Self)
        ensures
            material@.label == Some(label@),
            material@.albedo_texture == self@.albedo_texture,
            material@.tint == self@.tint,
    {
        let mut material = self;
        material.label = Some(String::from_str(label));
        material
    }

    /// Sets the albedo texture payload for this material.
    pub fn with_albedo_texture(self, texture: TextureData) -> (material: Self)
        ensures
            material@.label == self@.label,
            material@.albedo_texture == Some(texture@),
            material@.tint == self@.tint,
    {
        let mut material = self;
        material.albedo_texture = Some(texture);
        material
    }

    /// Returns the optional material label.
    pub fn label(&self) -> (label: Option<&str>)
        ensures
            match label {
                Some(s) => self@.label == Some(s@),
                None => self@.label.is_none(),
            },
    {
        label_as_str(&self.label)
    }

    /// Returns the optional albedo texture payload.
    pub fn albedo_texture(&self) -> (texture: Option<&TextureData>)
        ensures
            match texture {
                Some(t) => self@.albedo_texture == Some(t@),
                None => self@.albedo_texture.is_none(),
            },
    {
        match &self.albedo_texture {
            Some(t) => Some(t),
            None => None,
        }
    }

    /// Returns the material tint multiplier.
    pub fn tint(&self) -> (tint: Vec4)
        ensures
            tint == self@.tint,
    {
        self.tint
    }
}

} // verus!
