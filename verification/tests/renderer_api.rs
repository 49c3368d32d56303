use diene::asset::{MaterialData, MeshData, MeshDataError, MeshVertex};
use diene::extent::RenderExtent;
use diene::glm::{Mat4, U8Vec4, Vec2, Vec3, Vec4, F32_ONE_BITS, F32_ZERO_BITS};
use diene::scene::{
    validate_objects, RenderCamera, RenderObject, RenderScene, RenderSceneError, RenderTransform,
    F32_0_1_BITS, F32_100_BITS, F32_3_2_BITS, F32_45_DEGREES_IN_RADIANS_BITS, F32_QUARTER_BITS,
};
use diene::texture::{ImageData, TextureData, TextureDataError, TextureExtent};

fn vertex() -> MeshVertex {
    MeshVertex::new(
        Vec4::new(0, 0, 0, F32_ONE_BITS),
        Vec4::repeat(F32_ONE_BITS),
        Vec2::new(0, 0),
    )
}

fn mesh() -> MeshData {
    MeshData::new(vec![vertex(), vertex(), vertex()], vec![0, 1, 2]).unwrap()
}

#[test]
fn render_extent_is_empty_when_either_side_is_zero() {
    assert!(RenderExtent::new(0, 10).is_empty());
    assert!(RenderExtent::new(10, 0).is_empty());
    assert!(RenderExtent::new(0, 0).is_empty());
    assert!(!RenderExtent::new(1, 1).is_empty());
    assert_eq!(RenderExtent::new(3, 4), RenderExtent { width: 3, height: 4 });
}

#[test]
fn texture_extent_byte_length_is_four_bytes_per_pixel() {
    assert_eq!(TextureExtent::new(2, 3).rgba8_byte_len(), Some(24));
    assert_eq!(TextureExtent::new(0, 3).rgba8_byte_len(), Some(0));
    assert!(TextureExtent::new(0, 3).is_empty());
    assert!(!TextureExtent::new(1, 3).is_empty());
    assert_eq!(
        TextureExtent::new(u32::MAX, u32::MAX).rgba8_byte_len(),
        (u32::MAX as usize).checked_mul(u32::MAX as usize).and_then(|n| n.checked_mul(4))
    );
}

#[test]
fn image_from_rgba8_accepts_exact_byte_count() {
    let image = ImageData::from_rgba8(TextureExtent::new(2, 1), vec![1, 2, 3, 4, 5, 6, 7, 8]).unwrap();
    assert_eq!(image.extent(), TextureExtent::new(2, 1));
    assert_eq!(image.width(), 2);
    assert_eq!(image.height(), 1);
    assert_eq!(image.byte_len(), 8);
    assert_eq!(image.pixels(), &[1, 2, 3, 4, 5, 6, 7, 8]);
    assert_eq!(image.into_pixels(), vec![1, 2, 3, 4, 5, 6, 7, 8]);
}

#[test]
fn image_from_rgba8_rejects_empty_extent() {
    assert_eq!(
        ImageData::from_rgba8(TextureExtent::new(0, 4), vec![]),
        Err(TextureDataError::EmptyExtent(TextureExtent::new(0, 4)))
    );
}

#[test]
fn image_from_rgba8_rejects_wrong_byte_count() {
    assert_eq!(
        ImageData::from_rgba8(TextureExtent::new(2, 2), vec![0; 15]),
        Err(TextureDataError::InvalidRgba8ByteLength { expected: 16, actual: 15 })
    );
}

#[test]
fn image_from_rgba8_rejects_overflowing_extent() {
    let extent = TextureExtent::new(u32::MAX, u32::MAX);
    if (u32::MAX as usize).checked_mul(u32::MAX as usize).and_then(|n| n.checked_mul(4)).is_none() {
        assert_eq!(
            ImageData::from_rgba8(extent, vec![]),
            Err(TextureDataError::ByteLengthOverflow(extent))
        );
    }
}

#[test]
fn solid_image_is_one_pixel_of_the_color() {
    let image = ImageData::solid_rgba8(U8Vec4::new(10, 20, 30, 40));
    assert_eq!(image.extent(), TextureExtent::new(1, 1));
    assert_eq!(image.pixels(), &[10, 20, 30, 40]);
}

#[test]
fn checkerboard_is_magenta_and_black_squares() {
    let image = ImageData::checkerboard();
    assert_eq!(image.extent(), TextureExtent::new(16, 16));
    let pixels = image.pixels();
    assert_eq!(pixels.len(), 1024);
    let pixel = |x: usize, y: usize| &pixels[(y * 16 + x) * 4..(y * 16 + x) * 4 + 4];
    assert_eq!(pixel(0, 0), &[255, 0, 255, 255]);
    assert_eq!(pixel(7, 7), &[255, 0, 255, 255]);
    assert_eq!(pixel(8, 0), &[0, 0, 0, 255]);
    assert_eq!(pixel(0, 8), &[0, 0, 0, 255]);
    assert_eq!(pixel(15, 15), &[255, 0, 255, 255]);
    assert_eq!(ImageData::default(), ImageData::checkerboard());
}

#[test]
fn texture_data_keeps_label_and_image() {
    let texture = TextureData::solid_rgba8("white", U8Vec4::new(255, 255, 255, 255));
    assert_eq!(texture.label(), Some("white"));
    assert_eq!(texture.extent(), TextureExtent::new(1, 1));
    assert_eq!(texture.width(), 1);
    assert_eq!(texture.height(), 1);
    assert_eq!(texture.byte_len(), 4);
    assert_eq!(texture.pixels(), &[255, 255, 255, 255]);

    let unlabeled = TextureData::from_rgba8(TextureExtent::new(1, 1), vec![1, 2, 3, 4]).unwrap();
    assert_eq!(unlabeled.label(), None);
    assert_eq!(unlabeled.into_pixels(), vec![1, 2, 3, 4]);

    let labeled =
        TextureData::from_rgba8_with_label("tile", TextureExtent::new(1, 1), vec![1, 2, 3, 4])
            .unwrap();
    assert_eq!(labeled.label(), Some("tile"));
    assert_eq!(labeled.image().pixels(), &[1, 2, 3, 4]);
    assert_eq!(labeled.into_image().pixels(), &[1, 2, 3, 4]);

    assert_eq!(
        TextureData::from_rgba8_with_label("tile", TextureExtent::new(1, 1), vec![1]).err(),
        Some(TextureDataError::InvalidRgba8ByteLength { expected: 4, actual: 1 })
    );

    let from_image = TextureData::from_image("board", ImageData::checkerboard());
    assert_eq!(from_image.label(), Some("board"));
    assert_eq!(from_image.byte_len(), 1024);
}

#[test]
fn default_texture_is_the_labelled_checkerboard() {
    let texture = TextureData::default();
    assert_eq!(texture.label(), Some("default-checkerboard"));
    assert_eq!(texture.extent(), TextureExtent::new(16, 16));
    assert_eq!(texture.pixels(), ImageData::checkerboard().pixels());
}

#[test]
fn mesh_requires_vertices_then_indices() {
    assert_eq!(MeshData::new(vec![], vec![]).err(), Some(MeshDataError::EmptyVertices));
    assert_eq!(MeshData::new(vec![], vec![0]).err(), Some(MeshDataError::EmptyVertices));
    assert_eq!(MeshData::new(vec![vertex()], vec![]).err(), Some(MeshDataError::EmptyIndices));
    let mesh = mesh();
    assert_eq!(mesh.vertices().len(), 3);
    assert_eq!(mesh.indices(), &[0, 1, 2]);
    assert_eq!(mesh.clone().indices(), &[0, 1, 2]);
}

#[test]
fn mesh_errors_describe_themselves() {
    assert_eq!(MeshDataError::EmptyVertices.message(), "mesh data must contain at least one vertex");
    assert_eq!(MeshDataError::EmptyIndices.message(), "mesh data must contain at least one index");
}

#[test]
fn mesh_vertex_keeps_its_attributes() {
    let v = MeshVertex::new(Vec4::new(1, 2, 3, 4), Vec4::new(5, 6, 7, 8), Vec2::new(9, 10));
    assert_eq!(v.position, Vec4::new(1, 2, 3, 4));
    assert_eq!(v.color, Vec4::new(5, 6, 7, 8));
    assert_eq!(v.uv, Vec2::new(9, 10));
}

#[test]
fn material_defaults_to_white_without_label_or_texture() {
    let material = MaterialData::default();
    assert_eq!(material.tint(), Vec4::repeat(F32_ONE_BITS));
    assert_eq!(material.label(), None);
    assert!(material.albedo_texture().is_none());
    assert_eq!(F32_ONE_BITS, 1.0_f32.to_bits());
}

#[test]
fn material_builder_sets_label_and_texture() {
    let tint = Vec4::new(0.5_f32.to_bits(), 0, 0, 1.0_f32.to_bits());
    let material = MaterialData::tinted(tint)
        .with_albedo_texture(TextureData::solid_rgba8("red", U8Vec4::new(255, 0, 0, 255)))
        .with_label("blue quad");
    assert_eq!(material.tint(), tint);
    assert_eq!(material.label(), Some("blue quad"));
    assert_eq!(material.albedo_texture().unwrap().label(), Some("red"));
}

#[test]
fn identity_transform_is_the_identity_matrix() {
    let m = RenderTransform::identity().model_matrix();
    for r in 0..4 {
        for c in 0..4 {
            let expected = if r == c { 1.0_f32 } else { 0.0 };
            assert_eq!(f32::from_bits(m.rows[r][c]), expected);
        }
    }
    assert_eq!(RenderTransform::default(), RenderTransform::identity());
    assert_eq!(Mat4::identity(), m);
}

#[test]
fn translation_scale_transform_places_scale_on_diagonal_and_translation_in_last_column() {
    let t = Vec3::new(1.0_f32.to_bits(), 2.0_f32.to_bits(), 3.0_f32.to_bits());
    let s = Vec3::new(4.0_f32.to_bits(), 5.0_f32.to_bits(), 6.0_f32.to_bits());
    let m = RenderTransform::from_translation_scale(t, s).model_matrix();
    let rows: Vec<Vec<f32>> =
        m.rows.iter().map(|row| row.iter().map(|bits| f32::from_bits(*bits)).collect()).collect();
    assert_eq!(
        rows,
        vec![
            vec![4.0, 0.0, 0.0, 1.0],
            vec![0.0, 5.0, 0.0, 2.0],
            vec![0.0, 0.0, 6.0, 3.0],
            vec![0.0, 0.0, 0.0, 1.0],
        ]
    );
    let custom = Mat4::from_rows([[1, 2, 3, 4], [5, 6, 7, 8], [9, 10, 11, 12], [13, 14, 15, 16]]);
    assert_eq!(RenderTransform::new(custom).model_matrix(), custom);
}

#[test]
fn default_camera_looks_at_origin_from_slightly_above() {
    let camera = RenderCamera::default();
    assert_eq!(camera.eye(), Vec3::new(F32_ZERO_BITS, F32_QUARTER_BITS, F32_3_2_BITS));
    assert_eq!(camera.target(), Vec3::new(0, 0, 0));
    assert_eq!(camera.up(), Vec3::new(0, F32_ONE_BITS, 0));
    assert_eq!(camera.vertical_fov_radians(), F32_45_DEGREES_IN_RADIANS_BITS);
    assert_eq!(camera.near_plane(), F32_0_1_BITS);
    assert_eq!(camera.far_plane(), F32_100_BITS);
    assert_eq!(F32_QUARTER_BITS, 0.25_f32.to_bits());
    assert_eq!(F32_3_2_BITS, 3.2_f32.to_bits());
    assert_eq!(F32_45_DEGREES_IN_RADIANS_BITS, 45.0_f32.to_radians().to_bits());
    assert_eq!(F32_0_1_BITS, 0.1_f32.to_bits());
    assert_eq!(F32_100_BITS, 100.0_f32.to_bits());
}

#[test]
fn camera_keeps_its_parameters() {
    let camera = RenderCamera::new(
        Vec3::new(1, 2, 3),
        Vec3::new(4, 5, 6),
        Vec3::new(7, 8, 9),
        10,
        11,
        12,
    );
    assert_eq!(camera.eye(), Vec3::new(1, 2, 3));
    assert_eq!(camera.target(), Vec3::new(4, 5, 6));
    assert_eq!(camera.up(), Vec3::new(7, 8, 9));
    assert_eq!(camera.vertical_fov_radians(), 10);
    assert_eq!(camera.near_plane(), 11);
    assert_eq!(camera.far_plane(), 12);
}

#[test]
fn render_object_keeps_indices_and_transform() {
    let object = RenderObject::new(2, 3, RenderTransform::identity());
    assert_eq!(object.mesh_index(), 2);
    assert_eq!(object.material_index(), 3);
    assert_eq!(object.transform(), RenderTransform::identity());
}

#[test]
fn scene_accepts_objects_with_existing_mesh_and_material() {
    let scene = RenderScene::new(
        vec![mesh()],
        vec![MaterialData::default()],
        vec![RenderObject::new(0, 0, RenderTransform::identity())],
    )
    .unwrap();
    assert_eq!(scene.meshes().len(), 1);
    assert_eq!(scene.materials().len(), 1);
    assert_eq!(scene.objects(), &[RenderObject::new(0, 0, RenderTransform::identity())]);
    assert_eq!(scene.clone().objects().len(), 1);
}

#[test]
fn scene_rejects_missing_mesh() {
    let result = RenderScene::new(
        vec![mesh()],
        vec![MaterialData::default()],
        vec![
            RenderObject::new(0, 0, RenderTransform::identity()),
            RenderObject::new(1, 0, RenderTransform::identity()),
        ],
    );
    let error = result.err().unwrap();
    assert_eq!(
        error,
        RenderSceneError::MeshIndexUnavailable { object_index: 1, mesh_index: 1, mesh_count: 1 }
    );
    assert_eq!(error.message(), "render object 1 references mesh 1, but scene has 1 meshes");
}

#[test]
fn scene_rejects_missing_material() {
    let error = RenderScene::new(
        vec![mesh()],
        vec![],
        vec![RenderObject::new(0, 7, RenderTransform::identity())],
    )
    .err()
    .unwrap();
    assert_eq!(
        error,
        RenderSceneError::MaterialIndexUnavailable {
            object_index: 0,
            material_index: 7,
            material_count: 0
        }
    );
    assert_eq!(
        error.message(),
        "render object 0 references material 7, but scene has 0 materials"
    );
}

#[test]
fn scene_validation_reports_first_faulty_object_and_mesh_before_material() {
    let objects = [
        RenderObject::new(0, 0, RenderTransform::identity()),
        RenderObject::new(5, 9, RenderTransform::identity()),
        RenderObject::new(6, 0, RenderTransform::identity()),
    ];
    assert_eq!(
        validate_objects(&objects, 1, 1),
        Err(RenderSceneError::MeshIndexUnavailable { object_index: 1, mesh_index: 5, mesh_count: 1 })
    );
    assert_eq!(validate_objects(&objects, 10, 10), Ok(()));
    assert_eq!(validate_objects(&[], 0, 0), Ok(()));
}

#[test]
fn scene_error_message_spells_large_numbers() {
    let error = RenderSceneError::MeshIndexUnavailable {
        object_index: 1234567890,
        mesh_index: 10,
        mesh_count: 0,
    };
    assert_eq!(
        error.message(),
        "render object 1234567890 references mesh 10, but scene has 0 meshes"
    );
}

#[test]
fn empty_scene_has_nothing() {
    let scene = RenderScene::empty();
    assert!(scene.meshes().is_empty());
    assert!(scene.materials().is_empty());
    assert!(scene.objects().is_empty());
    assert_eq!(RenderScene::default(), RenderScene::empty());
}

#[test]
fn u8_vector_lists_components_in_order() {
    assert_eq!(U8Vec4::new(1, 2, 3, 4).to_vec(), vec![1, 2, 3, 4]);
    assert_eq!(Vec3::new(1, 2, 3), Vec3 { x: 1, y: 2, z: 3 });
}

#[test]
fn cloned_scene_equals_original() {
    let texture = TextureData::solid_rgba8("red", U8Vec4::new(255, 0, 0, 255));
    let scene = RenderScene::new(
        vec![mesh()],
        vec![MaterialData::default().with_albedo_texture(texture.clone()).with_label("m")],
        vec![RenderObject::new(0, 0, RenderTransform::identity())],
    )
    .unwrap();
    assert_eq!(scene.clone(), scene);
    assert_eq!(texture.clone(), texture);
    assert_eq!(ImageData::checkerboard().clone(), ImageData::checkerboard());
}

fn encoded_png(width: u32, height: u32, pixels: Vec<u8>) -> Vec<u8> {
    let image = image::RgbaImage::from_raw(width, height, pixels).unwrap();
    let mut bytes = std::io::Cursor::new(Vec::new());
    image.write_to(&mut bytes, image::ImageFormat::Png).unwrap();
    bytes.into_inner()
}

#[test]
fn encoded_png_decodes_to_its_pixels() {
    let bytes = encoded_png(2, 1, vec![1, 2, 3, 4, 5, 6, 7, 8]);
    let image = ImageData::from_encoded("tile.png", &bytes).unwrap();
    assert_eq!(image.extent(), TextureExtent::new(2, 1));
    assert_eq!(image.pixels(), &[1, 2, 3, 4, 5, 6, 7, 8]);
    let texture = TextureData::from_encoded("assets/tile.png", &bytes).unwrap();
    assert_eq!(texture.label(), Some("assets/tile.png"));
    assert_eq!(texture.pixels(), &[1, 2, 3, 4, 5, 6, 7, 8]);
}

#[test]
fn undecodable_files_are_decode_errors_naming_the_path() {
    let bytes = encoded_png(1, 1, vec![9, 9, 9, 9]);
    assert!(matches!(
        ImageData::from_encoded("tile.unknown", &bytes),
        Err(TextureDataError::ImageDecode { path, .. }) if path == "tile.unknown"
    ));
    assert!(matches!(
        TextureData::from_encoded("tile.png", &[0, 1, 2, 3]),
        Err(TextureDataError::ImageDecode { path, .. }) if path == "tile.png"
    ));
}

#[test]
fn decoded_output_is_checked_like_raw_rgba8() {
    assert_eq!(
        ImageData::from_decoded("a.png", Ok((1, 1, vec![1, 2, 3, 4]))).unwrap().pixels(),
        &[1, 2, 3, 4]
    );
    assert_eq!(
        ImageData::from_decoded("a.png", Ok((1, 2, vec![1, 2, 3, 4]))),
        Err(TextureDataError::InvalidRgba8ByteLength { expected: 8, actual: 4 })
    );
    assert_eq!(
        ImageData::from_decoded("a.png", Ok((0, 2, vec![]))),
        Err(TextureDataError::EmptyExtent(TextureExtent::new(0, 2)))
    );
    assert_eq!(
        ImageData::from_decoded("a.png", Err("bad data".to_owned())),
        Err(TextureDataError::ImageDecode { path: "a.png".to_owned(), reason: "bad data".to_owned() })
    );
}

#[test]
fn scenes_carry_the_default_camera_until_replaced() {
    assert_eq!(RenderScene::empty().camera(), RenderCamera::default());
    assert_eq!(RenderScene::default().camera(), RenderCamera::default());
    let scene = RenderScene::new(
        vec![mesh()],
        vec![MaterialData::default()],
        vec![RenderObject::new(0, 0, RenderTransform::identity())],
    )
    .unwrap();
    assert_eq!(scene.camera(), RenderCamera::default());
    let camera = RenderCamera::new(Vec3::new(0, 0, 3.2_f32.to_bits()), Vec3::new(0, 0, 0), Vec3::new(0, F32_ONE_BITS, 0), 1, 2, 3);
    let scene = scene.with_camera(camera);
    assert_eq!(scene.camera(), camera);
    assert_eq!(scene.objects().len(), 1);
    assert_eq!(scene.clone().camera(), camera);
}
