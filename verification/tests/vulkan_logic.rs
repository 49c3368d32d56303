use ash::vk;
use diene::extent::RenderExtent;
use diene::scene::{RenderObject, RenderTransform};
use diene::vulkan::device::{
    device_suitable, evaluate_device, extensions_supported, pick_physical_device, required_extensions,
    unique_queue_families, DeviceReport, DeviceSelectionError, FeatureSupport,
    DEVICE_TYPE_DISCRETE_GPU,
};
use diene::vulkan::draw::{
    build_draw_list, require_device_address, resolve_draw_inputs, table_index, DrawInput,
    DrawListError, DrawSetupError, MeshBuffers,
};
use diene::vulkan::frame::{
    after_present, check_recreated_format, frame_slot, image_slot, next_frame, on_acquire,
    plan_resize, AcquireDecision, AcquireOutcome, FrameEnd, FramePacer, PresentOutcome,
    RecreateError, ResizeAction, FRAMES_IN_FLIGHT,
};
use diene::vulkan::layout::{
    compute_push_constant_words, draw_push_constant_words, material_words, words_to_bytes,
    COMPUTE_PUSH_CONSTANT_SIZE, DRAW_PUSH_CONSTANT_SIZE,
};
use diene::vulkan::pipeline::{check_graphics_pipeline, PipelineRequestError};
use diene::vulkan::queues::{
    select_queue_families, QueueFamilyIndices, QueueFamilyInfo, QUEUE_COMPUTE_BIT,
    QUEUE_GRAPHICS_BIT, QUEUE_TRANSFER_BIT,
};
use diene::vulkan::surface::{
    make_surface_config, plan_swapchain, swapchain_adequate, SurfaceCapabilities,
    SurfaceConfigError, SurfaceFormat, SurfaceSupport, SwapchainPlan, SwapchainPlanError,
    COLOR_SPACE_SRGB_NONLINEAR, COMPOSITE_ALPHA_INHERIT, COMPOSITE_ALPHA_OPAQUE,
    COMPOSITE_ALPHA_POST_MULTIPLIED, COMPOSITE_ALPHA_PRE_MULTIPLIED, FORMAT_B8G8R8A8_SRGB,
    FORMAT_R8G8B8A8_SRGB, FORMAT_R8G8B8A8_UNORM, FORMAT_UNDEFINED,
    IMAGE_USAGE_COLOR_ATTACHMENT, PRESENT_MODE_FIFO, PRESENT_MODE_IMMEDIATE,
    PRESENT_MODE_MAILBOX,
};
use diene::vulkan::upload::{
    check_buffer_write, check_squares, check_table_not_empty, count_to_u32, next_texture_handle,
    plan_mip_blits, transform_index, workgroup_count, BufferUploadError, ComputeMismatch,
    MipBlit, TextureHandle, TextureHeapError, BINDLESS_TEXTURE_CAPACITY, COMPUTE_ELEMENT_COUNT,
    COMPUTE_WORKGROUP_SIZE,
};
use diene::vulkan::version::{check_instance_version, ApiVersion, InstanceVersionError};

const GRAPHICS: u32 = QUEUE_GRAPHICS_BIT;
const COMPUTE: u32 = QUEUE_COMPUTE_BIT;
const TRANSFER: u32 = QUEUE_TRANSFER_BIT;

fn family(flags: u32, supports_present: bool) -> QueueFamilyInfo {
    QueueFamilyInfo { flags, supports_present }
}

fn all_features() -> FeatureSupport {
    FeatureSupport {
        geometry_shader: true,
        sampler_anisotropy: true,
        sample_rate_shading: true,
        multi_draw_indirect: true,
        fill_mode_non_solid: true,
        vertex_pipeline_stores_and_atomics: true,
        fragment_stores_and_atomics: true,
        shader_storage_image_multisample: true,
        shader_int64: true,
        shader_draw_parameters: true,
        storage_buffer8_bit_access: true,
        descriptor_indexing: true,
        shader_sampled_image_array_non_uniform_indexing: true,
        descriptor_binding_partially_bound: true,
        runtime_descriptor_array: true,
        timeline_semaphore: true,
        buffer_device_address: true,
        vulkan_memory_model: true,
        vulkan_memory_model_device_scope: true,
        synchronization2: true,
        dynamic_rendering: true,
    }
}

fn capabilities() -> SurfaceCapabilities {
    SurfaceCapabilities {
        min_image_count: 2,
        max_image_count: 8,
        current_extent: RenderExtent::new(800, 600),
        min_image_extent: RenderExtent::new(1, 1),
        max_image_extent: RenderExtent::new(4096, 4096),
        supported_usage_flags: IMAGE_USAGE_COLOR_ATTACHMENT,
        supported_composite_alpha: COMPOSITE_ALPHA_OPAQUE,
        current_transform: 1,
    }
}

fn support() -> SurfaceSupport {
    SurfaceSupport {
        capabilities: capabilities(),
        formats: vec![SurfaceFormat {
            format: FORMAT_B8G8R8A8_SRGB,
            color_space: COLOR_SPACE_SRGB_NONLINEAR,
        }],
        present_modes: vec![PRESENT_MODE_FIFO],
    }
}

fn device(api_version: u32, device_type: i32, max_image_dimension_2d: u32) -> DeviceReport {
    DeviceReport {
        api_version,
        device_type,
        max_image_dimension_2d,
        queue_families: vec![family(GRAPHICS | COMPUTE | TRANSFER, true)],
        features: all_features(),
        extensions: vec!["VK_KHR_swapchain".to_owned()],
        surface: Some(support()),
    }
}

fn vulkan_1_3() -> u32 {
    ApiVersion::new(1, 3, 0).to_packed()
}

#[test]
fn single_universal_family_serves_every_role() {
    assert_eq!(
        select_queue_families(&[family(GRAPHICS | COMPUTE | TRANSFER, true)]),
        Some(QueueFamilyIndices { graphics: 0, present: 0, compute: 0, transfer: 0 })
    );
}

#[test]
fn dedicated_compute_and_transfer_families_are_preferred() {
    let families = [
        family(GRAPHICS | COMPUTE | TRANSFER, true),
        family(COMPUTE | TRANSFER, false),
        family(TRANSFER, false),
    ];
    assert_eq!(
        select_queue_families(&families),
        Some(QueueFamilyIndices { graphics: 0, present: 0, compute: 1, transfer: 2 })
    );
}

#[test]
fn graphics_family_that_presents_wins_over_earlier_graphics_family() {
    let families = [family(GRAPHICS | COMPUTE, false), family(GRAPHICS, true)];
    assert_eq!(
        select_queue_families(&families),
        Some(QueueFamilyIndices { graphics: 1, present: 1, compute: 0, transfer: 0 })
    );
}

#[test]
fn separate_graphics_and_present_families_are_refused() {
    let families = [family(GRAPHICS | COMPUTE | TRANSFER, false), family(TRANSFER, true)];
    assert_eq!(select_queue_families(&families), None);
    assert_eq!(select_queue_families(&[family(TRANSFER, true)]), None);
    assert_eq!(select_queue_families(&[]), None);
}

#[test]
fn unique_families_list_each_family_once_in_role_order() {
    let indices = QueueFamilyIndices { graphics: 0, present: 0, compute: 2, transfer: 0 };
    assert_eq!(unique_queue_families(&indices), vec![0, 2]);
    let indices = QueueFamilyIndices { graphics: 3, present: 3, compute: 1, transfer: 2 };
    assert_eq!(unique_queue_families(&indices), vec![3, 1, 2]);
}

#[test]
fn api_versions_pack_as_ash_packs_them() {
    let version = ApiVersion::new(1, 3, 250);
    assert_eq!(version.to_packed(), ash::vk::make_api_version(0, 1, 3, 250));
    assert_eq!(ApiVersion::from_packed(ash::vk::API_VERSION_1_2), ApiVersion::new(1, 2, 0));
    assert_eq!(ApiVersion::from_packed(version.to_packed()), version);
    assert_eq!(ApiVersion::min_supported(), ApiVersion::new(1, 3, 0));
    assert!(ApiVersion::new(1, 2, 9).older_than(&ApiVersion::new(1, 3, 0)));
    assert!(!ApiVersion::new(2, 0, 0).older_than(&ApiVersion::new(1, 3, 0)));
    assert!(!ApiVersion::new(1, 3, 0).older_than(&ApiVersion::new(1, 3, 0)));
}

#[test]
fn instance_version_must_be_at_least_1_3() {
    assert_eq!(check_instance_version(Some(ash::vk::API_VERSION_1_3)), Ok(ApiVersion::new(1, 3, 0)));
    assert_eq!(
        check_instance_version(Some(ash::vk::API_VERSION_1_1)),
        Err(InstanceVersionError::InsufficientVersion {
            expected: ApiVersion::new(1, 3, 0),
            got: ApiVersion::new(1, 1, 0),
        })
    );
    assert_eq!(
        check_instance_version(None),
        Err(InstanceVersionError::InsufficientVersion {
            expected: ApiVersion::new(1, 3, 0),
            got: ApiVersion::new(1, 0, 0),
        })
    );
}

#[test]
fn features_are_listed_and_all_required() {
    let features = all_features();
    assert!(features.all_available());
    assert_eq!(features.availability().len(), 21);
    assert_eq!(features.availability()[0], ("Geometry shader availability", true));
    let missing = FeatureSupport { dynamic_rendering: false, ..all_features() };
    assert!(!missing.all_available());
    assert_eq!(missing.availability()[20], ("Dynamic rendering availability", false));
}

#[test]
fn swapchain_extension_is_required() {
    assert_eq!(required_extensions(), vec!["VK_KHR_swapchain".to_owned()]);
    assert!(extensions_supported(&["VK_KHR_other".to_owned(), "VK_KHR_swapchain".to_owned()]));
    assert!(!extensions_supported(&["VK_KHR_other".to_owned()]));
}

#[test]
fn suitable_device_is_scored_by_type_and_image_size() {
    let verdict = evaluate_device(&device(vulkan_1_3(), DEVICE_TYPE_DISCRETE_GPU, 16384));
    assert_eq!(
        verdict,
        Some((QueueFamilyIndices { graphics: 0, present: 0, compute: 0, transfer: 0 }, 17384))
    );
    assert_eq!(evaluate_device(&device(vulkan_1_3(), 1, 8192)).map(|v| v.1), Some(8192));
}

#[test]
fn unsuitable_devices_are_rejected() {
    assert_eq!(evaluate_device(&device(ApiVersion::new(1, 2, 0).to_packed(), 2, 1)), None);
    let mut no_surface = device(vulkan_1_3(), 2, 1);
    no_surface.surface = None;
    assert_eq!(evaluate_device(&no_surface), None);
    let mut no_extension = device(vulkan_1_3(), 2, 1);
    no_extension.extensions.clear();
    assert_eq!(evaluate_device(&no_extension), None);
    let mut no_feature = device(vulkan_1_3(), 2, 1);
    no_feature.features.buffer_device_address = false;
    assert_eq!(evaluate_device(&no_feature), None);
    let mut no_queues = device(vulkan_1_3(), 2, 1);
    no_queues.queue_families = vec![family(TRANSFER, true)];
    assert_eq!(evaluate_device(&no_queues), None);
}

#[test]
fn highest_score_wins_and_later_device_wins_ties() {
    let reports = [
        device(vulkan_1_3(), 1, 4096),
        device(vulkan_1_3(), DEVICE_TYPE_DISCRETE_GPU, 4096),
        device(vulkan_1_3(), 1, 5000),
        device(ApiVersion::new(1, 0, 0).to_packed(), DEVICE_TYPE_DISCRETE_GPU, 100000),
    ];
    let choice = pick_physical_device(&reports).unwrap();
    assert_eq!(choice.index, 1);
    assert_eq!(choice.score, 5096);
    let tied = [device(vulkan_1_3(), 1, 4096), device(vulkan_1_3(), 1, 4096)];
    assert_eq!(pick_physical_device(&tied).unwrap().index, 1);
}

#[test]
fn no_suitable_device_is_an_error() {
    assert_eq!(pick_physical_device(&[]), Err(DeviceSelectionError::NoSuitablePhysicalDevice));
    let mut report = device(vulkan_1_3(), 2, 1);
    report.surface = None;
    assert_eq!(
        pick_physical_device(&[report]),
        Err(DeviceSelectionError::NoSuitablePhysicalDevice)
    );
}

#[test]
fn surface_config_collects_choices() {
    let mut support = support();
    support.present_modes = vec![PRESENT_MODE_MAILBOX, PRESENT_MODE_IMMEDIATE];
    support.formats.insert(
        0,
        SurfaceFormat { format: FORMAT_R8G8B8A8_UNORM, color_space: COLOR_SPACE_SRGB_NONLINEAR },
    );
    let config = make_surface_config(support, RenderExtent::new(10, 10), false).unwrap();
    assert_eq!(config.extent, RenderExtent::new(800, 600));
    assert_eq!(config.surface_format.format, FORMAT_B8G8R8A8_SRGB);
    assert_eq!(config.present_mode, PRESENT_MODE_IMMEDIATE);
    assert_eq!(config.formats.len(), 2);
}

#[test]
fn surface_config_requires_formats_then_present_modes() {
    let mut no_formats = support();
    no_formats.formats.clear();
    no_formats.present_modes.clear();
    assert_eq!(
        make_surface_config(no_formats, RenderExtent::new(1, 1), true).err(),
        Some(SurfaceConfigError::NoSurfaceFormats)
    );
    let mut no_modes = support();
    no_modes.present_modes.clear();
    assert_eq!(
        make_surface_config(no_modes, RenderExtent::new(1, 1), true).err(),
        Some(SurfaceConfigError::NoPresentModes)
    );
}

#[test]
fn swapchain_plan_needs_color_attachments_and_known_alpha() {
    assert_eq!(
        plan_swapchain(&capabilities()),
        Ok(SwapchainPlan { image_count: 3, composite_alpha: COMPOSITE_ALPHA_OPAQUE })
    );
    let pre = SurfaceCapabilities {
        supported_composite_alpha: COMPOSITE_ALPHA_PRE_MULTIPLIED | COMPOSITE_ALPHA_INHERIT,
        ..capabilities()
    };
    assert_eq!(plan_swapchain(&pre).unwrap().composite_alpha, COMPOSITE_ALPHA_PRE_MULTIPLIED);
    let no_usage = SurfaceCapabilities { supported_usage_flags: 0, ..capabilities() };
    assert_eq!(plan_swapchain(&no_usage), Err(SwapchainPlanError::UnsupportedColorAttachment));
    let no_alpha = SurfaceCapabilities { supported_composite_alpha: 0, ..capabilities() };
    assert_eq!(plan_swapchain(&no_alpha), Err(SwapchainPlanError::UnsupportedCompositeAlpha));
}

#[test]
fn adequate_swapchain_support_has_formats_modes_usage_and_alpha() {
    assert!(swapchain_adequate(&support()));
    let mut no_modes = support();
    no_modes.present_modes.clear();
    assert!(!swapchain_adequate(&no_modes));
    let mut no_alpha = support();
    no_alpha.capabilities.supported_composite_alpha = 0;
    assert!(!swapchain_adequate(&no_alpha));
}

#[test]
fn frame_slots_cycle_through_frames_in_flight() {
    assert_eq!(FRAMES_IN_FLIGHT, 3);
    assert_eq!(next_frame(0), 1);
    assert_eq!(next_frame(2), 0);
    assert_eq!(frame_slot(7), 1);
    assert_eq!(image_slot(2, 3), Some(2));
    assert_eq!(image_slot(3, 3), None);
}

#[test]
fn resize_pauses_for_empty_window_and_recreates_on_change() {
    let current = RenderExtent::new(800, 600);
    assert_eq!(plan_resize(RenderExtent::new(0, 600), current), (true, ResizeAction::Keep));
    assert_eq!(plan_resize(current, current), (false, ResizeAction::Keep));
    assert_eq!(
        plan_resize(RenderExtent::new(1024, 768), current),
        (false, ResizeAction::Recreate(RenderExtent::new(1024, 768)))
    );
}

#[test]
fn acquisition_outcomes_decide_the_frame() {
    assert_eq!(
        on_acquire(AcquireOutcome::Acquired { image_index: 1, suboptimal: true }),
        AcquireDecision::Record { image_index: 1, suboptimal: true }
    );
    assert_eq!(on_acquire(AcquireOutcome::OutOfDate), AcquireDecision::RecreateAndSkip);
    assert_eq!(on_acquire(AcquireOutcome::Failed(-4)), AcquireDecision::Fail(-4));
}

#[test]
fn presentation_outcomes_decide_recreation() {
    assert_eq!(
        after_present(false, PresentOutcome::Presented { suboptimal: false }, 2),
        Ok(FrameEnd { recreate_swapchain: false, next_frame: 0 })
    );
    assert_eq!(
        after_present(true, PresentOutcome::Presented { suboptimal: false }, 0),
        Ok(FrameEnd { recreate_swapchain: true, next_frame: 1 })
    );
    assert_eq!(
        after_present(false, PresentOutcome::OutOfDate, 1),
        Ok(FrameEnd { recreate_swapchain: true, next_frame: 2 })
    );
    assert_eq!(after_present(false, PresentOutcome::Failed(-3), 1), Err(-3));
}

#[test]
fn recreated_swapchain_must_keep_its_format() {
    assert_eq!(check_recreated_format(50, 50), Ok(()));
    assert_eq!(
        check_recreated_format(50, 44),
        Err(RecreateError::SurfaceFormatChanged { old: 50, new: 44 })
    );
}

#[test]
fn frame_pacer_tracks_slot_pause_and_extent() {
    let mut pacer = FramePacer::new(RenderExtent::new(800, 600));
    assert_eq!(pacer.current_frame, 0);
    pacer.frame_presented();
    pacer.frame_presented();
    pacer.frame_presented();
    assert_eq!(pacer.current_frame, 0);
    assert_eq!(pacer.resize(RenderExtent::new(0, 0)), ResizeAction::Keep);
    assert!(pacer.rendering_paused);
    assert_eq!(
        pacer.resize(RenderExtent::new(640, 480)),
        ResizeAction::Recreate(RenderExtent::new(640, 480))
    );
    assert!(!pacer.rendering_paused);
    pacer.swapchain_recreated(RenderExtent::new(640, 480));
    assert_eq!(pacer.extent, RenderExtent::new(640, 480));
    assert_eq!(pacer.resize(RenderExtent::new(640, 480)), ResizeAction::Keep);
}

#[test]
fn graphics_pipeline_request_needs_name_formats_and_stages() {
    assert_eq!(check_graphics_pipeline("mesh", Some(50), Some(126), 2), Ok((50, 126)));
    assert_eq!(
        check_graphics_pipeline("bad name", Some(50), Some(126), 2),
        Err(PipelineRequestError::InvalidPipelineName { name: "bad name".to_owned() })
    );
    assert_eq!(
        check_graphics_pipeline("mesh", None, None, 0),
        Err(PipelineRequestError::IncompleteGraphicsPipeline("color attachment format"))
    );
    assert_eq!(
        check_graphics_pipeline("mesh", Some(50), None, 0),
        Err(PipelineRequestError::IncompleteGraphicsPipeline("depth attachment format"))
    );
    assert_eq!(
        check_graphics_pipeline("mesh", Some(50), Some(126), 0),
        Err(PipelineRequestError::IncompleteGraphicsPipeline("shader stages"))
    );
}

#[test]
fn draw_inputs_resolve_mesh_material_and_transform() {
    let objects = [
        RenderObject::new(0, 1, RenderTransform::identity()),
        RenderObject::new(1, 0, RenderTransform::identity()),
    ];
    assert_eq!(
        resolve_draw_inputs(&objects, 2, 2, 2),
        Ok(vec![
            DrawInput { mesh: 0, material: 1, transform: 0 },
            DrawInput { mesh: 1, material: 0, transform: 1 },
        ])
    );
    assert_eq!(
        resolve_draw_inputs(&objects, 1, 2, 2),
        Err(DrawSetupError::MeshIndexUnavailable { index: 1 })
    );
    assert_eq!(
        resolve_draw_inputs(&objects, 2, 1, 2),
        Err(DrawSetupError::MaterialIndexUnavailable { index: 0 })
    );
    assert_eq!(
        resolve_draw_inputs(&objects, 2, 2, 1),
        Err(DrawSetupError::TransformIndexUnavailable { index: 1 })
    );
    assert_eq!(table_index(3, 4), Some(3));
    assert_eq!(table_index(4, 4), None);
}

#[test]
fn draw_list_lays_out_items_and_indirect_commands() {
    let meshes = [
        MeshBuffers { vertex_address: 0x1_0000_0010, index_address: 0x20, index_count: 36 },
        MeshBuffers { vertex_address: 0x30, index_address: 0x2_0000_0040, index_count: 6 },
    ];
    let draws = [
        DrawInput { mesh: 1, material: 7, transform: 0 },
        DrawInput { mesh: 0, material: 3, transform: 1 },
    ];
    let list = build_draw_list(&draws, &meshes).unwrap();
    assert_eq!(list.draw_count, 2);
    assert_eq!(
        list.item_words,
        vec![0x30, 0, 0x40, 2, 7, 0, 0, 0, 0x10, 1, 0x20, 0, 3, 0, 0, 0]
    );
    assert_eq!(list.indirect_words, vec![6, 1, 0, 0, 36, 1, 0, 0]);
    assert_eq!(build_draw_list(&[], &meshes).err(), Some(DrawListError::EmptyDraws));
    assert_eq!(require_device_address(0), Err(DrawListError::NullDeviceAddress));
    assert_eq!(require_device_address(0x40), Ok(0x40));
}

#[test]
fn texture_heap_hands_out_slots_until_full() {
    assert_eq!(next_texture_handle(0), Ok(TextureHandle(0)));
    assert_eq!(next_texture_handle(1023).map(TextureHandle::index), Ok(1023));
    assert_eq!(
        next_texture_handle(BINDLESS_TEXTURE_CAPACITY as usize),
        Err(TextureHeapError::CapacityExceeded { capacity: 1024 })
    );
}

#[test]
fn buffer_uploads_are_checked() {
    assert_eq!(check_buffer_write(64, 64), Ok(64));
    assert_eq!(
        check_buffer_write(65, 64),
        Err(BufferUploadError::WriteTooLarge { bytes: 65, capacity: 64 })
    );
    assert_eq!(check_table_not_empty(0), Err(BufferUploadError::EmptyTable));
    assert_eq!(check_table_not_empty(1), Ok(()));
    assert_eq!(count_to_u32(12), Ok(12));
    if usize::BITS > 32 {
        let count = u32::MAX as usize + 1;
        assert_eq!(count_to_u32(count), Err(BufferUploadError::CountTooLarge { count }));
    }
    assert_eq!(transform_index(1, 2).map(|t| t.index()), Some(1));
    assert_eq!(transform_index(2, 2), None);
}

#[test]
fn mip_blits_halve_each_level_down_to_one_pixel() {
    assert_eq!(
        plan_mip_blits(8, 2, 4),
        vec![
            MipBlit { level: 1, src_width: 8, src_height: 2, dst_width: 4, dst_height: 1 },
            MipBlit { level: 2, src_width: 4, src_height: 1, dst_width: 2, dst_height: 1 },
            MipBlit { level: 3, src_width: 2, src_height: 1, dst_width: 1, dst_height: 1 },
        ]
    );
    assert!(plan_mip_blits(8, 8, 1).is_empty());
    assert!(plan_mip_blits(8, 8, 0).is_empty());
}

#[test]
fn compute_self_check_covers_every_element() {
    assert_eq!(workgroup_count(COMPUTE_ELEMENT_COUNT, COMPUTE_WORKGROUP_SIZE), 4);
    assert_eq!(workgroup_count(65, 64), 2);
    assert_eq!(workgroup_count(0, 64), 0);
    let good: Vec<u8> = (0u32..4).flat_map(|i| (i * i).to_le_bytes()).collect();
    assert_eq!(check_squares(&good, true), Ok(()));
    let mut bad = good.clone();
    bad[8] = 5;
    assert_eq!(check_squares(&bad, true), Err(ComputeMismatch { index: 2, actual: 5, expected: 4 }));
    let big: Vec<u8> = (0u32..4).flat_map(|i| (i * i).to_be_bytes()).collect();
    assert_eq!(check_squares(&big, false), Ok(()));
    assert_eq!(
        check_squares(&big, true),
        Err(ComputeMismatch { index: 1, actual: 0x0100_0000, expected: 1 })
    );
    let native: Vec<u8> = (0u32..4).flat_map(|i| (i * i).to_ne_bytes()).collect();
    assert_eq!(check_squares(&native, u32::from_ne_bytes([1, 0, 0, 0]) == 1), Ok(()));
}

#[test]
fn push_constants_and_materials_are_little_endian_words() {
    let words = draw_push_constant_words(0x1_0000_0002, 3, 0x4_0000_0000);
    assert_eq!(words, vec![2, 1, 3, 0, 0, 4]);
    assert_eq!(4 * words.len() as u32, DRAW_PUSH_CONSTANT_SIZE);
    let words = compute_push_constant_words(0x5_0000_0006, 256);
    assert_eq!(words, vec![6, 5, 256, 0]);
    assert_eq!(4 * words.len() as u32, COMPUTE_PUSH_CONSTANT_SIZE);
    assert_eq!(material_words(9), vec![9, 0, 0, 0]);
    assert_eq!(words_to_bytes(&[0x0403_0201]), vec![1, 2, 3, 4]);
}

#[test]
fn vulkan_constants_match_ash() {
    assert_eq!(QUEUE_GRAPHICS_BIT, vk::QueueFlags::GRAPHICS.as_raw());
    assert_eq!(QUEUE_COMPUTE_BIT, vk::QueueFlags::COMPUTE.as_raw());
    assert_eq!(QUEUE_TRANSFER_BIT, vk::QueueFlags::TRANSFER.as_raw());
    assert_eq!(DEVICE_TYPE_DISCRETE_GPU, vk::PhysicalDeviceType::DISCRETE_GPU.as_raw());
    assert_eq!(FORMAT_UNDEFINED, vk::Format::UNDEFINED.as_raw());
    assert_eq!(FORMAT_R8G8B8A8_UNORM, vk::Format::R8G8B8A8_UNORM.as_raw());
    assert_eq!(FORMAT_R8G8B8A8_SRGB, vk::Format::R8G8B8A8_SRGB.as_raw());
    assert_eq!(FORMAT_B8G8R8A8_SRGB, vk::Format::B8G8R8A8_SRGB.as_raw());
    assert_eq!(COLOR_SPACE_SRGB_NONLINEAR, vk::ColorSpaceKHR::SRGB_NONLINEAR.as_raw());
    assert_eq!(PRESENT_MODE_IMMEDIATE, vk::PresentModeKHR::IMMEDIATE.as_raw());
    assert_eq!(PRESENT_MODE_MAILBOX, vk::PresentModeKHR::MAILBOX.as_raw());
    assert_eq!(PRESENT_MODE_FIFO, vk::PresentModeKHR::FIFO.as_raw());
    assert_eq!(IMAGE_USAGE_COLOR_ATTACHMENT, vk::ImageUsageFlags::COLOR_ATTACHMENT.as_raw());
    assert_eq!(COMPOSITE_ALPHA_OPAQUE, vk::CompositeAlphaFlagsKHR::OPAQUE.as_raw());
    assert_eq!(COMPOSITE_ALPHA_PRE_MULTIPLIED, vk::CompositeAlphaFlagsKHR::PRE_MULTIPLIED.as_raw());
    assert_eq!(
        COMPOSITE_ALPHA_POST_MULTIPLIED,
        vk::CompositeAlphaFlagsKHR::POST_MULTIPLIED.as_raw()
    );
    assert_eq!(COMPOSITE_ALPHA_INHERIT, vk::CompositeAlphaFlagsKHR::INHERIT.as_raw());
    assert_eq!(
        diene::vulkan::pipeline::PIPELINE_CACHE_HEADER_VERSION_ONE,
        vk::PipelineCacheHeaderVersion::ONE.as_raw() as u32
    );
}

#[test]
fn spirv_words_read_back_what_words_to_bytes_wrote() {
    let words = vec![0x0723_0203, 0, u32::MAX, 0x0102_0304];
    let bytes = words_to_bytes(&words);
    assert_eq!(bytes.len(), 16);
    assert_eq!(diene::shader::spirv_words("m", &bytes).ok(), Some(words));
}

#[test]
fn distinct_pipeline_names_have_distinct_cache_files() {
    use_cache_path_names(&["mesh", "mesh2", "sky"]);
}

fn use_cache_path_names(names: &[&str]) {
    let paths: Vec<String> =
        names.iter().map(|n| diene::vulkan::pipeline::pipeline_cache_path(n)).collect();
    for (i, a) in paths.iter().enumerate() {
        for b in &paths[i + 1..] {
            assert_ne!(a, b);
        }
    }
}

#[test]
fn suitability_matches_evaluation() {
    let good = device(vulkan_1_3(), 2, 1);
    assert!(device_suitable(&good));
    let mut no_surface = device(vulkan_1_3(), 2, 1);
    no_surface.surface = None;
    assert!(!device_suitable(&no_surface));
    assert!(!device_suitable(&device(ApiVersion::new(1, 2, 0).to_packed(), 2, 1)));
}
