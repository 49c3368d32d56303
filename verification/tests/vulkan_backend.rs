use diene::asset::MeshVertex;
use diene::extent::RenderExtent;
use diene::glm::{Vec2, Vec3, Vec4};
use diene::scene::RenderTransform;
use diene::vulkan::layout::{transform_words, vertex_words, words_to_bytes};
use diene::vulkan::pipeline::{
    compatible_pipeline_cache, is_valid_pipeline_name, pipeline_cache_path,
    PipelineCacheIdentity,
};
use diene::vulkan::surface::{
    choose_composite_alpha, choose_extent, choose_image_count, choose_present_mode,
    choose_surface_format, preferred_format, SurfaceCapabilities, SurfaceFormat,
    COLOR_SPACE_SRGB_NONLINEAR, COMPOSITE_ALPHA_INHERIT, COMPOSITE_ALPHA_OPAQUE,
    FORMAT_R8G8B8A8_UNORM, PRESENT_MODE_FIFO, PRESENT_MODE_IMMEDIATE,
};

fn capabilities() -> SurfaceCapabilities {
    SurfaceCapabilities {
        min_image_count: 0,
        max_image_count: 0,
        current_extent: RenderExtent::new(0, 0),
        min_image_extent: RenderExtent::new(0, 0),
        max_image_extent: RenderExtent::new(0, 0),
        supported_usage_flags: 0,
        supported_composite_alpha: 0,
        current_transform: 0,
    }
}

#[test]
fn pipeline_name_rejects_cache_unsafe_names() {
    assert!(is_valid_pipeline_name("terrain"));
    assert!(!is_valid_pipeline_name(""));
    assert!(!is_valid_pipeline_name("terrain main"));
    assert!(!is_valid_pipeline_name("../terrain"));
    assert!(!is_valid_pipeline_name("terrain\\main"));
}

fn pipeline_cache_properties(
    vendor_id: u32,
    device_id: u32,
    pipeline_cache_uuid: [u8; 16],
) -> PipelineCacheIdentity {
    PipelineCacheIdentity { vendor_id, device_id, pipeline_cache_uuid }
}

fn header_bytes(properties: &PipelineCacheIdentity) -> Vec<u8> {
    let mut bytes = Vec::new();
    bytes.extend_from_slice(&32u32.to_le_bytes());
    bytes.extend_from_slice(&1u32.to_le_bytes());
    bytes.extend_from_slice(&properties.vendor_id.to_le_bytes());
    bytes.extend_from_slice(&properties.device_id.to_le_bytes());
    bytes.extend_from_slice(&properties.pipeline_cache_uuid);
    bytes
}

#[test]
fn pipeline_cache_accepts_matching_header() {
    let properties = pipeline_cache_properties(1, 2, [3; 16]);
    let header = header_bytes(&properties);

    assert!(compatible_pipeline_cache(header, &properties).is_some());
}

#[test]
fn pipeline_cache_rejects_mismatched_header() {
    let properties = pipeline_cache_properties(1, 2, [3; 16]);
    let other_properties = pipeline_cache_properties(4, 2, [3; 16]);
    let header = header_bytes(&other_properties);

    assert!(compatible_pipeline_cache(header, &properties).is_none());
}

#[test]
fn pipeline_cache_rejects_short_data_and_other_uuid() {
    let properties = pipeline_cache_properties(1, 2, [3; 16]);
    let header = header_bytes(&properties);
    assert!(compatible_pipeline_cache(header[..31].to_vec(), &properties).is_none());

    let other_uuid = pipeline_cache_properties(1, 2, [4; 16]);
    assert!(compatible_pipeline_cache(header_bytes(&other_uuid), &properties).is_none());

    let mut trailing = header_bytes(&properties);
    trailing.extend_from_slice(&[9, 9, 9]);
    assert_eq!(compatible_pipeline_cache(trailing.clone(), &properties), Some(trailing));
}

#[test]
fn pipeline_cache_path_is_under_cache_directory() {
    assert_eq!(pipeline_cache_path("terrain"), "cache/terrain.pcache");
}

#[test]
fn clamps_window_extent_when_surface_has_no_fixed_extent() {
    let capabilities = SurfaceCapabilities {
        current_extent: RenderExtent::new(u32::MAX, u32::MAX),
        min_image_extent: RenderExtent::new(100, 200),
        max_image_extent: RenderExtent::new(400, 500),
        ..capabilities()
    };

    assert_eq!(
        choose_extent(&capabilities, RenderExtent::new(50, 600)),
        RenderExtent::new(100, 500)
    );
}

#[test]
fn uses_fixed_surface_extent() {
    let capabilities =
        SurfaceCapabilities { current_extent: RenderExtent::new(640, 480), ..capabilities() };
    assert_eq!(
        choose_extent(&capabilities, RenderExtent::new(50, 600)),
        RenderExtent::new(640, 480)
    );
}

#[test]
fn prefers_srgb_surface_format_when_available() {
    let fallback =
        SurfaceFormat { format: FORMAT_R8G8B8A8_UNORM, color_space: COLOR_SPACE_SRGB_NONLINEAR };

    assert_eq!(
        choose_surface_format(&[fallback, preferred_format()]).ok(),
        Some(preferred_format())
    );
}

#[test]
fn surface_format_falls_back_to_first_and_fills_undefined() {
    let fallback =
        SurfaceFormat { format: FORMAT_R8G8B8A8_UNORM, color_space: COLOR_SPACE_SRGB_NONLINEAR };
    assert_eq!(choose_surface_format(&[fallback]).ok(), Some(fallback));
    let undefined = SurfaceFormat { format: 0, color_space: COLOR_SPACE_SRGB_NONLINEAR };
    assert_eq!(choose_surface_format(&[undefined]).ok(), Some(preferred_format()));
    assert!(choose_surface_format(&[]).is_err());
}

#[test]
fn disables_vsync_with_immediate_present_when_available() {
    assert_eq!(
        choose_present_mode(&[PRESENT_MODE_FIFO, PRESENT_MODE_IMMEDIATE], false).ok(),
        Some(PRESENT_MODE_IMMEDIATE)
    );
}

#[test]
fn vsync_keeps_fifo() {
    assert_eq!(
        choose_present_mode(&[PRESENT_MODE_FIFO, PRESENT_MODE_IMMEDIATE], true).ok(),
        Some(PRESENT_MODE_FIFO)
    );
    assert!(choose_present_mode(&[], false).is_err());
}

#[test]
fn image_count_uses_one_more_than_min_when_under_max() {
    let capabilities = SurfaceCapabilities { min_image_count: 2, max_image_count: 4, ..capabilities() };

    assert_eq!(choose_image_count(&capabilities), 3);
}

#[test]
fn image_count_clamps_to_max_when_needed() {
    let capabilities = SurfaceCapabilities { min_image_count: 2, max_image_count: 2, ..capabilities() };

    assert_eq!(choose_image_count(&capabilities), 2);
}

#[test]
fn composite_alpha_prefers_opaque() {
    let capabilities = SurfaceCapabilities {
        supported_composite_alpha: COMPOSITE_ALPHA_INHERIT | COMPOSITE_ALPHA_OPAQUE,
        ..capabilities()
    };

    assert_eq!(choose_composite_alpha(&capabilities).ok(), Some(COMPOSITE_ALPHA_OPAQUE));
}

#[test]
fn gpu_mesh_vertex_matches_shader_layout() {
    let vertex = MeshVertex::new(
        Vec4::new(1.0f32.to_bits(), 2.0f32.to_bits(), 3.0f32.to_bits(), 1.0f32.to_bits()),
        Vec4::new(0.25f32.to_bits(), 0.5f32.to_bits(), 0.75f32.to_bits(), 1.0f32.to_bits()),
        Vec2::new(0.2f32.to_bits(), 0.8f32.to_bits()),
    );

    let words = vertex_words(&[vertex]);
    let floats: Vec<f32> = words.iter().map(|w| f32::from_bits(*w)).collect();
    assert_eq!(words_to_bytes(&words).len(), 48);
    assert_eq!(words_to_bytes(&words).len() % 16, 0);
    assert_eq!(floats[0..4], [1.0, 2.0, 3.0, 1.0]);
    assert_eq!(floats[4..8], [0.25, 0.5, 0.75, 1.0]);
    assert_eq!(floats[8..12], [0.2, 0.8, 0.0, 0.0]);
}

#[test]
fn gpu_transform_serializes_glm_matrix_as_shader_rows() {
    let transform = RenderTransform::from_translation_scale(
        Vec3::new(1.0f32.to_bits(), 2.0f32.to_bits(), 3.0f32.to_bits()),
        Vec3::new(4.0f32.to_bits(), 5.0f32.to_bits(), 6.0f32.to_bits()),
    );

    let words = transform_words(&[transform]);
    let floats: Vec<f32> = words.iter().map(|w| f32::from_bits(*w)).collect();
    assert_eq!(words_to_bytes(&words).len(), 64);
    assert_eq!(words_to_bytes(&words).len() % 16, 0);
    assert_eq!(
        floats,
        vec![
            4.0, 0.0, 0.0, 1.0, //
            0.0, 5.0, 0.0, 2.0, //
            0.0, 0.0, 6.0, 3.0, //
            0.0, 0.0, 0.0, 1.0,
        ]
    );
}
