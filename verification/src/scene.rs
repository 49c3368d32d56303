//! Backend-neutral scenes: meshes, materials, and the objects that use
//! them.

use vstd::prelude::*;
use crate::asset::{MaterialData, MaterialModel, MeshData, MeshModel};
use crate::glm::{F32_ONE_BITS, F32_ZERO_BITS, Mat4, Vec3};
use crate::text::{spec_decimal, push_decimal};

verus! {

/// Bit pattern of `0.25_f32`.
pub const F32_QUARTER_BITS: u32 = 0x3e80_0000;

/// Bit pattern of `3.2_f32`.
pub const F32_3_2_BITS: u32 = 0x404c_cccd;

/// Bit pattern of `45.0_f32.to_radians()`.
pub const F32_45_DEGREES_IN_RADIANS_BITS: u32 = 0x3f49_0fdb;

/// Bit pattern of `0.1_f32`.
pub const F32_0_1_BITS: u32 = 0x3dcc_cccd;

/// Bit pattern of `100.0_f32`.
pub const F32_100_BITS: u32 = 0x42c8_0000;

/// Camera parameters used to build the renderer view-projection matrix.
/// Scalars are single-precision bit patterns.
#[derive(Clone, Copy, Debug, PartialEq, Eq, Structural)]
pub struct RenderCamera {
    eye: Vec3,
    target: Vec3,
    up: Vec3,
    vertical_fov_radians: u32,
    near_plane: u32,
    far_plane: u32,
}

impl Default for RenderCamera {
    /// Eye at (0, 0.25, 3.2) looking at the origin with +Y up, a 45 degree
    /// vertical field of view, and clip planes at 0.1 and 100.
    fn default() -> (camera: Self)
        ensures
            camera == RenderCamera::spec_default(),
            camera.spec_eye() == (Vec3 { x: F32_ZERO_BITS, y: F32_QUARTER_BITS, z: F32_3_2_BITS }),
            camera.spec_target() == (Vec3 { x: F32_ZERO_BITS, y: F32_ZERO_BITS, z: F32_ZERO_BITS }),
            camera.spec_up() == (Vec3 { x: F32_ZERO_BITS, y: F32_ONE_BITS, z: F32_ZERO_BITS }),
            camera.spec_vertical_fov_radians() == F32_45_DEGREES_IN_RADIANS_BITS,
            camera.spec_near_plane() == F32_0_1_BITS,
            camera.spec_far_plane() == F32_100_BITS,
    {
        RenderCamera {
            eye: Vec3 { x: F32_ZERO_BITS, y: F32_QUARTER_BITS, z: F32_3_2_BITS },
            target: Vec3 { x: F32_ZERO_BITS, y: F32_ZERO_BITS, z: F32_ZERO_BITS },
            up: Vec3 { x: F32_ZERO_BITS, y: F32_ONE_BITS, z: F32_ZERO_BITS },
            vertical_fov_radians: F32_45_DEGREES_IN_RADIANS_BITS,
            near_plane: F32_0_1_BITS,
            far_plane: F32_100_BITS,
        }
    }
}

impl RenderCamera {
    /// The default camera: eye at (0, 0.25, 3.2) looking at the origin with
    /// +Y up, a 45 degree vertical field of view, clip planes at 0.1 and 100.
    pub closed spec fn spec_default() -> RenderCamera {
        RenderCamera {
            eye: Vec3 { x: F32_ZERO_BITS, y: F32_QUARTER_BITS, z: F32_3_2_BITS },
            target: Vec3 { x: F32_ZERO_BITS, y: F32_ZERO_BITS, z: F32_ZERO_BITS },
            up: Vec3 { x: F32_ZERO_BITS, y: F32_ONE_BITS, z: F32_ZERO_BITS },
            vertical_fov_radians: F32_45_DEGREES_IN_RADIANS_BITS,
            near_plane: F32_0_1_BITS,
            far_plane: F32_100_BITS,
        }
    }

    /// What the default camera holds.
    pub proof fn lemma_default_camera()
        ensures
            Self::spec_default().spec_eye() == (Vec3 { x: F32_ZERO_BITS, y: F32_QUARTER_BITS, z: F32_3_2_BITS }),
            Self::spec_default().spec_target() == (Vec3 { x: F32_ZERO_BITS, y: F32_ZERO_BITS, z: F32_ZERO_BITS }),
            Self::spec_default().spec_up() == (Vec3 { x: F32_ZERO_BITS, y: F32_ONE_BITS, z: F32_ZERO_BITS }),
            Self::spec_default().spec_vertical_fov_radians() == F32_45_DEGREES_IN_RADIANS_BITS,
            Self::spec_default().spec_near_plane() == F32_0_1_BITS,
            Self::spec_default().spec_far_plane() == F32_100_BITS,
    {
    }

    pub closed spec fn spec_eye(self) -> Vec3 {
        self.eye
    }

    pub closed spec fn spec_target(self) -> Vec3 {
        self.target
    }

    pub closed spec fn spec_up(self) -> Vec3 {
        self.up
    }

    pub closed spec fn spec_vertical_fov_radians(self) -> u32 {
        self.vertical_fov_radians
    }

    pub closed spec fn spec_near_plane(self) -> u32 {
        self.near_plane
    }

    pub closed spec fn spec_far_plane(self) -> u32 {
        self.far_plane
    }

    /// Creates camera data from eye, target, up, field of view and clip
    /// planes.
    pub fn new(
        eye: Vec3,
        target: Vec3,
        up: Vec3,
        vertical_fov_radians: u32,
        near_plane: u32,
        far_plane: u32,
    ) -> (camera: Self)
        ensures
            camera.spec_eye() == eye,
            camera.spec_target() == target,
            camera.spec_up() == up,
            camera.spec_vertical_fov_radians() == vertical_fov_radians,
            camera.spec_near_plane() == near_plane,
            camera.spec_far_plane() == far_plane,
    {
        RenderCamera { eye, target, up, vertical_fov_radians, near_plane, far_plane }
    }

    /// Returns the camera position in world space.
    pub fn eye(self) -> (eye: Vec3)
        ensures
            eye == self.spec_eye(),
    {
        self.eye
    }

    /// Returns the camera look target in world space.
    pub fn target(self) -> (target: Vec3)
        ensures
            target == self.spec_target(),
    {
        self.target
    }

    /// Returns the camera up direction.
    pub fn up(self) -> (up: Vec3)
        ensures
            up == self.spec_up(),
    {
        self.up
    }

    /// Returns the vertical field of view in radians.
    pub fn vertical_fov_radians(self) -> (fov: u32)
        ensures
            fov == self.spec_vertical_fov_radians(),
    {
        self.vertical_fov_radians
    }

    /// Returns the near clipping plane distance.
    pub fn near_plane(self) -> (near: u32)
        ensures
            near == self.spec_near_plane(),
    {
        self.near_plane
    }

    /// Returns the far clipping plane distance.
    pub fn far_plane(self) -> (far: u32)
        ensures
            far == self.spec_far_plane(),
    {
        self.far_plane
    }
}

/// Backend-neutral model transform consumed by renderer backends.
#[derive(Clone, Copy, Debug, PartialEq, Eq)]
pub struct RenderTransform {
    model_matrix: Mat4,
}

impl Default for RenderTransform {
    /// The identity transform.
    fn default() -> (transform: Self)
        ensures
            transform.spec_model_matrix().spec_is_identity(),
    {
        Self::identity()
    }
}

/// The rows of a model matrix that scales by `s` and then translates by
/// `t`.
pub open spec fn spec_translation_scale_rows(t: Vec3, s: Vec3) -> Seq<Seq<u32>> {
    seq![
        seq![s.x, F32_ZERO_BITS, F32_ZERO_BITS, t.x],
        seq![F32_ZERO_BITS, s.y, F32_ZERO_BITS, t.y],
        seq![F32_ZERO_BITS, F32_ZERO_BITS, s.z, t.z],
        seq![F32_ZERO_BITS, F32_ZERO_BITS, F32_ZERO_BITS, F32_ONE_BITS],
    ]
}

impl RenderTransform {
    pub closed spec fn spec_model_matrix(self) -> Mat4 {
        self.model_matrix
    }

    /// Creates an identity model transform.
    pub fn identity() -> (transform: Self)
        ensures
            transform.spec_model_matrix().spec_is_identity(),
    {
        RenderTransform { model_matrix: Mat4::identity() }
    }

    /// Creates a model transform from translation and scale.
    pub fn from_translation_scale(translation: Vec3, scale: Vec3) -> (transform: Self)
        ensures
            forall|r: int, c: int|
                0 <= r < 4 && 0 <= c < 4 ==> #[trigger] transform.spec_model_matrix().at(r, c)
                    == spec_translation_scale_rows(translation, scale)[r][c],
    {
        let rows = [
            [scale.x, F32_ZERO_BITS, F32_ZERO_BITS, translation.x],
            [F32_ZERO_BITS, scale.y, F32_ZERO_BITS, translation.y],
            [F32_ZERO_BITS, F32_ZERO_BITS, scale.z, translation.z],
            [F32_ZERO_BITS, F32_ZERO_BITS, F32_ZERO_BITS, F32_ONE_BITS],
        ];
        let transform = RenderTransform { model_matrix: Mat4 { rows } };
        assert forall|r: int, c: int| 0 <= r < 4 && 0 <= c < 4 implies #[trigger] transform.spec_model_matrix().at(r, c)
            == spec_translation_scale_rows(translation, scale)[r][c] by {
            if r == 0 {
            } else if r == 1 {
            } else if r == 2 {
            } else {
            }
        }
        transform
    }

    /// Creates a new model transform.
    pub fn new(model_matrix: Mat4) -> (transform: Self)
        ensures
            transform.spec_model_matrix() == model_matrix,
    {
        RenderTransform { model_matrix }
    }

    /// Returns the model matrix.
    pub fn model_matrix(self) -> (model_matrix: Mat4)
        ensures
            model_matrix == self.spec_model_matrix(),
    {
        self.model_matrix
    }
}

/// One submitted render object referencing scene mesh and material arrays.
#[derive(Clone, Copy, Debug, PartialEq, Eq)]
pub struct RenderObject {
    mesh_index: usize,
    material_index: usize,
    transform: RenderTransform,
}

impl RenderObject {
    pub closed spec fn spec_mesh_index(self) -> usize {
        self.mesh_index
    }

    pub closed spec fn spec_material_index(self) -> usize {
        self.material_index
    }

    pub closed spec fn spec_transform(self) -> RenderTransform {
        self.transform
    }

    /// Creates a render object with scene-local mesh and material indices.
    pub fn new(mesh_index: usize, material_index: usize, transform: RenderTransform) -> (object:
        Self)
        ensures
            object.spec_mesh_index() == mesh_index,
            object.spec_material_index() == material_index,
            object.spec_transform() == transform,
    {
        RenderObject { mesh_index, material_index, transform }
    }

    /// Returns the referenced mesh index.
    pub fn mesh_index(self) -> (index: usize)
        ensures
            index == self.spec_mesh_index(),
    {
        self.mesh_index
    }

    /// Returns the referenced material index.
    pub fn material_index(self) -> (index: usize)
        ensures
            index == self.spec_material_index(),
    {
        self.material_index
    }

    /// Returns the object model transform.
    pub fn transform(self) -> (transform: RenderTransform)
        ensures
            transform == self.spec_transform(),
    {
        self.transform
    }
}

/// Errors returned while creating a backend-neutral render scene.
#[derive(Clone, Copy, Debug, PartialEq, Eq, Structural)]
pub enum RenderSceneError {
    /// A render object references a mesh index outside the scene mesh
    /// array.
    MeshIndexUnavailable {
        /// Object index in the scene object array.
        object_index: usize,
        /// Referenced mesh index.
        mesh_index: usize,
        /// Number of meshes in the scene.
        mesh_count: usize,
    },
    /// A render object references a material index outside the scene
    /// material array.
    MaterialIndexUnavailable {
        /// Object index in the scene object array.
        object_index: usize,
        /// Referenced material index.
        material_index: usize,
        /// Number of materials in the scene.
        material_count: usize,
    },
}

impl RenderSceneError {
    /// The message that describes the error.
    pub open spec fn spec_message(self) -> Seq<char> {
        match self {
            RenderSceneError::MeshIndexUnavailable { object_index, mesh_index, mesh_count } =>
                "render object "@ + spec_decimal(object_index as nat) + " references mesh "@
                    + spec_decimal(mesh_index as nat) + ", but scene has "@ + spec_decimal(
                    mesh_count as nat,
                ) + " meshes"@,
            RenderSceneError::MaterialIndexUnavailable {
                object_index,
                material_index,
                material_count,
            } => "render object "@ + spec_decimal(object_index as nat) + " references material "@
                + spec_decimal(material_index as nat) + ", but scene has "@ + spec_decimal(
                material_count as nat,
            ) + " materials"@,
        }
    }

    /// Returns the message that describes the error.
    pub fn message(&self) -> (message: String)
        ensures
            message@ == self.spec_message(),
    {
        let mut text = String::from_str("render object ");
        match *self {
            RenderSceneError::MeshIndexUnavailable { object_index, mesh_index, mesh_count } => {
                push_decimal(&mut text, object_index as u64);
                text.append(" references mesh ");
                push_decimal(&mut text, mesh_index as u64);
                text.append(", but scene has ");
                push_decimal(&mut text, mesh_count as u64);
                text.append(" meshes");
            },
            RenderSceneError::MaterialIndexUnavailable {
                object_index,
                material_index,
                material_count,
            } => {
                push_decimal(&mut text, object_index as u64);
                text.append(" references material ");
                push_decimal(&mut text, material_index as u64);
                text.append(", but scene has ");
                push_decimal(&mut text, material_count as u64);
                text.append(" materials");
            },
        }
        text
    }
}

/// The error for object `index`, if any: its mesh index is checked before
/// its material index.
pub open spec fn spec_object_error(
    object: RenderObject,
    index: usize,
    mesh_count: usize,
    material_count: usize,
) -> Option<RenderSceneError> {
    if object.spec_mesh_index() >= mesh_count {
        Some(
            RenderSceneError::MeshIndexUnavailable {
                object_index: index,
                mesh_index: object.spec_mesh_index(),
                mesh_count,
            },
        )
    } else if object.spec_material_index() >= material_count {
        Some(
            RenderSceneError::MaterialIndexUnavailable {
                object_index: index,
                material_index: object.spec_material_index(),
                material_count,
            },
        )
    } else {
        None
    }
}

/// The error of the first faulty object among the first `n`.
pub open spec fn spec_first_object_error(
    objects: Seq<RenderObject>,
    mesh_count: usize,
    material_count: usize,
    n: nat,
) -> Option<RenderSceneError>
    decreases n,
{
    if n == 0 {
        None
    } else {
        match spec_first_object_error(objects, mesh_count, material_count, (n - 1) as nat) {
            Some(e) => Some(e),
            None => spec_object_error(objects[n - 1], (n - 1) as usize, mesh_count, material_count),
        }
    }
}

/// Whether every object references an existing mesh and material.
pub open spec fn spec_objects_valid(
    objects: Seq<RenderObject>,
    mesh_count: usize,
    material_count: usize,
) -> bool {
    forall|i: int|
        0 <= i < objects.len() ==> (#[trigger] objects[i]).spec_mesh_index() < mesh_count
            && objects[i].spec_material_index() < material_count
}

/// No error is found exactly when every object is valid.
pub proof fn lemma_no_error_iff_valid(
    objects: Seq<RenderObject>,
    mesh_count: usize,
    material_count: usize,
    n: nat,
)
    requires
        n <= objects.len(),
    ensures
        spec_first_object_error(objects, mesh_count, material_count, n) is None <==> spec_objects_valid(
            objects.take(n as int),
            mesh_count,
            material_count,
        ),
    decreases n,
{
    if n > 0 {
        lemma_no_error_iff_valid(objects, mesh_count, material_count, (n - 1) as nat);
        let prefix = objects.take(n as int);
        let shorter = objects.take((n - 1) as int);
        assert(prefix.take((n - 1) as int) =~= shorter);
        if spec_objects_valid(prefix, mesh_count, material_count) {
            assert forall|i: int| 0 <= i < shorter.len() implies (#[trigger] shorter[i]).spec_mesh_index()
                < mesh_count && shorter[i].spec_material_index() < material_count by {
                assert(shorter[i] == prefix[i]);
            }
            assert(prefix[n - 1] == objects[n - 1]);
        }
        if spec_first_object_error(objects, mesh_count, material_count, n) is None {
            assert forall|i: int| 0 <= i < prefix.len() implies (#[trigger] prefix[i]).spec_mesh_index()
                < mesh_count && prefix[i].spec_material_index() < material_count by {
                if i < n - 1 {
                    assert(prefix[i] == shorter[i]);
                }
            }
        }
    }
}

/// Checks that every object references an existing mesh and material,
/// reporting the first object that does not.
pub fn validate_objects(objects: &[RenderObject], mesh_count: usize, material_count: usize) -> (result:
    Result<(), RenderSceneError>)
    ensures
        match result {
            Ok(()) => spec_first_object_error(objects@, mesh_count, material_count, objects@.len())
                is None,
            Err(e) => spec_first_object_error(objects@, mesh_count, material_count, objects@.len())
                == Some(e),
        },
        result is Ok <==> spec_objects_valid(objects@, mesh_count, material_count),
{
    let mut index: usize = 0;
    while index < objects.len()
        invariant
            0 <= index <= objects@.len(),
            spec_first_object_error(objects@, mesh_count, material_count, index as nat) is None,
        decreases objects@.len() - index,
    {
        let object = objects[index];
        if object.mesh_index >= mesh_count {
            proof {
                lemma_first_error_stable(objects@, mesh_count, material_count, (index + 1) as nat, objects@.len());
                lemma_no_error_iff_valid(objects@, mesh_count, material_count, objects@.len());
                assert(objects@.take(objects@.len() as int) =~= objects@);
            }
            return Err(
                RenderSceneError::MeshIndexUnavailable {
                    object_index: index,
                    mesh_index: object.mesh_index,
                    mesh_count,
                },
            );
        }
        if object.material_index >= material_count {
            proof {
                lemma_first_error_stable(objects@, mesh_count, material_count, (index + 1) as nat, objects@.len());
                lemma_no_error_iff_valid(objects@, mesh_count, material_count, objects@.len());
                assert(objects@.take(objects@.len() as int) =~= objects@);
            }
            return Err(
                RenderSceneError::MaterialIndexUnavailable {
                    object_index: index,
                    material_index: object.material_index,
                    material_count,
                },
            );
        }
        index = index + 1;
    }
    proof {
        lemma_no_error_iff_valid(objects@, mesh_count, material_count, objects@.len());
        assert(objects@.take(objects@.len() as int) =~= objects@);
    }
    Ok(())
}

proof fn lemma_first_error_stable(
    objects: Seq<RenderObject>,
    mesh_count: usize,
    material_count: usize,
    m: nat,
    n: nat,
)
    requires
        spec_first_object_error(objects, mesh_count, material_count, m) is Some,
        m <= n,
    ensures
        spec_first_object_error(objects, mesh_count, material_count, n) == spec_first_object_error(
            objects,
            mesh_count,
            material_count,
            m,
        ),
    decreases n - m,
{
    if m < n {
        lemma_first_error_stable(objects, mesh_count, material_count, m, (n - 1) as nat);
    }
}

/// What a scene holds.
pub struct SceneModel {
    pub meshes: Seq<MeshModel>,
    pub materials: Seq<MaterialModel>,
    pub objects: Seq<RenderObject>,
    pub camera: RenderCamera,
}

/// Backend-neutral scene payload used to initialize renderer resources:
/// every object references an existing mesh and material.
#[derive(Debug, PartialEq)]
pub struct RenderScene {
    meshes: Vec<MeshData>,
    materials: Vec<MaterialData>,
    objects: Vec<RenderObject>,
    camera: RenderCamera,
}

impl View for RenderScene {
    type V = SceneModel;

    closed spec fn view(&self) -> SceneModel {
        SceneModel {
            meshes: self.meshes@.map_values(|m: MeshData| m@),
            materials: self.materials@.map_values(|m: MaterialData| m@),
            objects: self.objects@,
            camera: self.camera,
        }
    }
}

impl Clone for RenderScene {
    fn clone(&self) -> (copy: Self)
        ensures
            copy@ == self@,
    {
        proof {
            use_type_invariant(self);
        }
        let mut meshes: Vec<MeshData> = Vec::with_capacity(self.meshes.len());
        let mut i: usize = 0;
        while i < self.meshes.len()
            invariant
                0 <= i <= self.meshes@.len(),
                meshes@.len() == i,
                forall|k: int| 0 <= k < i ==> (#[trigger] meshes@[k])@ == self.meshes@[k]@,
            decreases self.meshes@.len() - i,
        {
            meshes.push(self.meshes[i].clone());
            i = i + 1;
        }
        let mut materials: Vec<MaterialData> = Vec::with_capacity(self.materials.len());
        let mut j: usize = 0;
        while j < self.materials.len()
            invariant
                0 <= j <= self.materials@.len(),
                materials@.len() == j,
                forall|k: int| 0 <= k < j ==> (#[trigger] materials@[k])@ == self.materials@[k]@,
            decreases self.materials@.len() - j,
        {
            materials.push(self.materials[j].clone());
            j = j + 1;
        }
        let objects = self.objects.clone();
        assert(objects@ =~= self.objects@);
        let copy = RenderScene { meshes, materials, objects, camera: self.camera };
        assert(copy@.meshes =~= self@.meshes);
        assert(copy@.materials =~= self@.materials);
        copy
    }
}

impl Default for RenderScene {
    /// The empty scene with the default camera.
    fn default() -> (scene: Self)
        ensures
            scene@.meshes.len() == 0,
            scene@.materials.len() == 0,
            scene@.objects.len() == 0,
            scene@.camera == RenderCamera::spec_default(),
    {
        RenderScene {
            meshes: Vec::new(),
            materials: Vec::new(),
            objects: Vec::new(),
            camera: RenderCamera::default(),
        }
    }
}

impl RenderScene {
    #[verifier::type_invariant]
    closed spec fn references_valid(self) -> bool {
        spec_objects_valid(self.objects@, self.meshes@.len() as usize, self.materials@.len() as usize)
    }

    /// Creates an empty scene with the default camera.
    pub fn empty() -> (scene: Self)
        ensures
            scene@.meshes.len() == 0,
            scene@.materials.len() == 0,
            scene@.objects.len() == 0,
            scene@.camera == RenderCamera::spec_default(),
    {
        Self::default()
    }

    /// Creates a validated scene from meshes, materials, and render
    /// objects, with the default camera; fails with the first object that
    /// references a missing mesh or material.
    pub fn new(meshes: Vec<MeshData>, materials: Vec<MaterialData>, objects: Vec<RenderObject>) -> (scene:
        Result<Self, RenderSceneError>)
        ensures
            match scene {
                Ok(s) => {
                    &&& s@.meshes == meshes@.map_values(|m: MeshData| m@)
                    &&& s@.materials == materials@.map_values(|m: MaterialData| m@)
                    &&& s@.objects == objects@
                    &&& s@.camera == RenderCamera::spec_default()
                    &&& spec_objects_valid(objects@, meshes@.len() as usize, materials@.len() as usize)
                },
                Err(e) => spec_first_object_error(
                    objects@,
                    meshes@.len() as usize,
                    materials@.len() as usize,
                    objects@.len(),
                ) == Some(e),
            },
    {
        match validate_objects(objects.as_slice(), meshes.len(), materials.len()) {
            Ok(()) => Ok(RenderScene { meshes, materials, objects, camera: RenderCamera::default() }),
            Err(e) => Err(e),
        }
    }

    /// Returns the scene with its camera replaced.
    pub fn with_camera(self, camera: RenderCamera) -> (scene: Self)
        ensures
            scene@.meshes == self@.meshes,
            scene@.materials == self@.materials,
            scene@.objects == self@.objects,
            scene@.camera == camera,
    {
        proof {
            use_type_invariant(&self);
        }
        RenderScene {
            meshes: self.meshes,
            materials: self.materials,
            objects: self.objects,
            camera,
        }
    }

    /// Returns the camera the scene is viewed through.
    pub fn camera(&self) -> (camera: RenderCamera)
        ensures
            camera == self@.camera,
    {
        self.camera
    }

    /// Returns scene mesh payloads.
    pub fn meshes(&self) -> (meshes: &[MeshData])
        ensures
            meshes@.map_values(|m: MeshData| m@) == self@.meshes,
    {
        self.meshes.as_slice()
    }

    /// Returns scene material payloads.
    pub fn materials(&self) -> (materials: &[MaterialData])
        ensures
            materials@.map_values(|m: MaterialData| m@) == self@.materials,
    {
        self.materials.as_slice()
    }

    /// Returns submitted render objects; each references an existing mesh
    /// and material.
    pub fn objects(&self) -> (objects: &[RenderObject])
        ensures
            objects@ == self@.objects,
            spec_objects_valid(objects@, self@.meshes.len() as usize, self@.materials.len() as usize),
    {
        proof {
            use_type_invariant(self);
        }
        self.objects.as_slice()
    }
}

} // verus!
