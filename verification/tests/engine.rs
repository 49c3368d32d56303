use ash::vk::ShaderStageFlags;
use diene::extent::RenderExtent;
use diene::host::{host_step, initial_host_state, HostAction, HostEvent, HostState};
use diene::report::{format_error_report, local_error_message};
use diene::runtime::{
    resolve_application_name, select_renderer_backend, ApplicationBuilder,
    ApplicationHostBuildError, RendererBackend, VulkanRendererBuilder, VulkanRendererError,
    UNTITLED_APPLICATION,
};
use diene::scene::RenderScene;
use diene::shader::{
    assembly_output_path, check_compile_request, check_entrypoint, check_search_path, has_nul,
    vulkan_stage, CompiledShader, ShaderCompileError, ShaderCompilerOptions, ShaderEntrypoint,
    ShaderStage,
};
use diene::text::{is_blank, is_whitespace, push_decimal};
use diene::timer::{Duration, Stopwatch};

#[test]
fn application_name_defaults_to_untitled() {
    assert_eq!(resolve_application_name(None), Ok(UNTITLED_APPLICATION.to_owned()));
    assert_eq!(UNTITLED_APPLICATION, "Untitled Application");
}

#[test]
fn application_name_is_kept_untrimmed() {
    assert_eq!(resolve_application_name(Some(" diene ".to_owned())), Ok(" diene ".to_owned()));
}

#[test]
fn blank_application_name_is_refused() {
    assert_eq!(resolve_application_name(Some(String::new())), Err(ApplicationHostBuildError::EmptyName));
    assert_eq!(
        resolve_application_name(Some(" \t\n\u{3000}".to_owned())),
        Err(ApplicationHostBuildError::EmptyName)
    );
}

#[test]
fn auto_backend_resolves_to_vulkan() {
    assert_eq!(select_renderer_backend(RendererBackend::Auto), (RendererBackend::Vulkan, true));
    assert_eq!(select_renderer_backend(RendererBackend::Vulkan), (RendererBackend::Vulkan, false));
    assert_eq!(RendererBackend::default(), RendererBackend::Auto);
}

#[test]
fn application_builder_collects_settings() {
    let (name, backend, scene, vsync) = ApplicationBuilder::new()
        .with_name("diene sandbox")
        .with_renderer_backend(RendererBackend::Vulkan)
        .with_vsync(true)
        .with_scene(RenderScene::empty())
        .into_parts();
    assert_eq!(name.as_deref(), Some("diene sandbox"));
    assert_eq!(backend, RendererBackend::Vulkan);
    assert!(scene.objects().is_empty());
    assert!(vsync);

    let (name, backend, _, vsync) = ApplicationBuilder::new().into_parts();
    assert_eq!(name, None);
    assert_eq!(backend, RendererBackend::Auto);
    assert!(!vsync);
}

#[test]
fn vulkan_renderer_refuses_empty_window() {
    let builder = VulkanRendererBuilder::default().with_vsync(true);
    assert!(builder.vsync());
    assert_eq!(builder.check_window(RenderExtent::new(800, 600)), Ok(()));
    assert_eq!(
        builder.check_window(RenderExtent::new(0, 600)),
        Err(VulkanRendererError::InvalidWindowSize(RenderExtent::new(0, 600)))
    );
    assert!(!VulkanRendererBuilder::default().vsync());
}

#[test]
fn host_opens_window_then_renderer_then_redraws() {
    let state = initial_host_state();
    let (state, action) = host_step(state, HostEvent::Resumed);
    assert_eq!(action, HostAction::CreateWindow);
    let (state, action) = host_step(state, HostEvent::WindowCreated { ok: true });
    assert_eq!(action, HostAction::CreateRenderer);
    assert!(!state.window_open);
    let (state, action) = host_step(state, HostEvent::RendererCreated { ok: true });
    assert_eq!(action, HostAction::RequestRedraw);
    assert_eq!(state, HostState { window_open: true, failed: false });
    let (state, action) = host_step(state, HostEvent::Resumed);
    assert_eq!(action, HostAction::Nothing);
    let (state, action) = host_step(state, HostEvent::RedrawRequested { main_window: true });
    assert_eq!(action, HostAction::RenderFrame);
    let (state, action) = host_step(state, HostEvent::FrameRendered { ok: true });
    assert_eq!(action, HostAction::RequestRedraw);
    let extent = RenderExtent::new(640, 480);
    let (state, action) = host_step(state, HostEvent::Resized { main_window: true, extent });
    assert_eq!(action, HostAction::ResizeRenderer(extent));
    let (state, action) = host_step(state, HostEvent::CloseRequested { main_window: true });
    assert_eq!(action, HostAction::Exit);
    assert!(!state.failed);
}

#[test]
fn host_ignores_other_windows_and_events_before_its_window() {
    let open = HostState { window_open: true, failed: false };
    for event in [
        HostEvent::CloseRequested { main_window: false },
        HostEvent::RedrawRequested { main_window: false },
        HostEvent::Resized { main_window: false, extent: RenderExtent::new(1, 1) },
        HostEvent::OtherWindowEvent,
    ] {
        assert_eq!(host_step(open, event), (open, HostAction::Nothing));
    }
    let closed = initial_host_state();
    assert_eq!(
        host_step(closed, HostEvent::RedrawRequested { main_window: true }),
        (closed, HostAction::Nothing)
    );
}

#[test]
fn host_failures_exit_and_are_kept() {
    let closed = initial_host_state();
    let (state, action) = host_step(closed, HostEvent::WindowCreated { ok: false });
    assert_eq!(action, HostAction::FailAndExit);
    assert!(state.failed);
    let (state, _) = host_step(state, HostEvent::OtherWindowEvent);
    assert!(state.failed);

    let (state, action) = host_step(closed, HostEvent::RendererCreated { ok: false });
    assert_eq!((state.failed, state.window_open, action), (true, false, HostAction::FailAndExit));

    let open = HostState { window_open: true, failed: false };
    assert_eq!(host_step(open, HostEvent::FrameRendered { ok: false }).1, HostAction::FailAndExit);
    assert_eq!(host_step(open, HostEvent::RendererResized { ok: false }).1, HostAction::FailAndExit);
    assert_eq!(host_step(open, HostEvent::RendererResized { ok: true }), (open, HostAction::Nothing));
}

#[test]
fn duration_carries_nanoseconds_into_seconds() {
    let d = Duration::new(1, 2_500_000_000);
    assert_eq!(d.as_secs(), 3);
    assert_eq!(d.subsec_nanos(), 500_000_000);
    assert_eq!(d.as_nanos(), 3_500_000_000);
    assert_eq!(Duration::zero().as_nanos(), 0);
}

#[test]
fn duration_sum_saturates_at_the_longest_span() {
    let a = Duration::new(1, 600_000_000);
    let b = Duration::new(2, 700_000_000);
    assert_eq!(a.saturating_add(b).as_nanos(), 4_300_000_000);
    assert_eq!(Duration::max_value().saturating_add(b), Duration::max_value());
    assert_eq!(
        Duration::max_value().as_nanos(),
        std::time::Duration::MAX.as_nanos()
    );
}

#[test]
fn stopped_stopwatch_shows_zero() {
    let watch = Stopwatch::new();
    assert_eq!(watch.elapsed(), Duration::zero());
    assert_eq!(Stopwatch::default().elapsed(), Duration::zero());
    assert_eq!(watch.elapsed_after(Duration::new(5, 0)), Duration::zero());
}

#[test]
fn stopwatch_adds_running_spans_and_ignores_paused_time() {
    let mut watch = Stopwatch::new();
    watch.start();
    watch.pause_after(Duration::new(2, 0));
    assert_eq!(watch.elapsed(), Duration::new(2, 0));
    assert_eq!(watch.elapsed_after(Duration::new(100, 0)), Duration::new(2, 0));
    watch.start();
    assert_eq!(watch.elapsed_after(Duration::new(0, 500)), Duration::new(2, 500));
    watch.pause_after(Duration::new(3, 0));
    assert_eq!(watch.elapsed(), Duration::new(5, 0));
    watch.pause_after(Duration::new(9, 0));
    assert_eq!(watch.elapsed(), Duration::new(5, 0));
    watch.reset();
    assert_eq!(watch.elapsed(), Duration::zero());
}

#[test]
fn stopwatch_measures_real_time_while_running() {
    let mut watch = Stopwatch::new();
    watch.pause();
    assert_eq!(watch.elapsed(), Duration::zero());
    watch.start();
    watch.start();
    watch.pause();
    let shown = watch.elapsed();
    assert_eq!(watch.elapsed(), shown);
    watch.start();
    watch.pause();
    assert!(watch.elapsed().as_nanos() >= shown.as_nanos());
}

#[test]
fn local_message_drops_repeated_source() {
    assert_eq!(
        local_error_message("renderer failed: vulkan backend failed", Some("vulkan backend failed")),
        "renderer failed"
    );
    assert_eq!(local_error_message("window failed", Some("no display")), "window failed");
    assert_eq!(local_error_message("plain", None), "plain");
    assert_eq!(local_error_message("x", Some("longer than the message")), "x");
}

#[test]
fn report_indents_each_cause_deeper() {
    let report = format_error_report(&[
        "application build failed".to_owned(),
        "application host build failed".to_owned(),
        "application name cannot be empty".to_owned(),
    ]);
    assert_eq!(
        report,
        "ERROR: application build failed\n    because: application host build failed\n        because: application name cannot be empty\n"
    );
    assert_eq!(format_error_report(&[]), "");
}

#[test]
fn whitespace_follows_unicode_white_space() {
    for c in [' ', '\t', '\n', '\r', '\u{b}', '\u{c}', '\u{85}', '\u{a0}', '\u{2003}', '\u{3000}'] {
        assert!(is_whitespace(c), "{c:?}");
        assert_eq!(is_whitespace(c), c.is_whitespace());
    }
    for c in ['a', '0', '\0', '\u{200b}', '_'] {
        assert!(!is_whitespace(c));
        assert_eq!(is_whitespace(c), c.is_whitespace());
    }
    assert!(is_blank(""));
    assert!(is_blank(" \t "));
    assert!(!is_blank(" a "));
}

#[test]
fn decimal_numerals_have_no_leading_zeros() {
    for n in [0u64, 7, 10, 99, 100, 4096, u64::MAX] {
        let mut text = String::from("n=");
        push_decimal(&mut text, n);
        assert_eq!(text, format!("n={n}"));
    }
}

#[test]
fn compiler_options_default_to_shaders_directory_and_spirv_1_5() {
    let options = ShaderCompilerOptions::default();
    assert_eq!(options.search_paths(), &["shaders".to_owned()]);
    assert_eq!(options.assembly_output_dir(), Some("shaders"));
    assert_eq!(options.spirv_profile(), "spirv_1_5");
}

#[test]
fn compiler_options_builders_replace_one_setting_each() {
    let options = ShaderCompilerOptions::default()
        .with_search_path("extra")
        .with_spirv_profile("spirv_1_6")
        .without_assembly_output();
    assert_eq!(options.search_paths(), &["shaders".to_owned(), "extra".to_owned()]);
    assert_eq!(options.assembly_output_dir(), None);
    assert_eq!(options.spirv_profile(), "spirv_1_6");
    let options = options
        .with_search_paths(vec!["a".to_owned(), "b".to_owned()])
        .with_assembly_output_dir("out");
    assert_eq!(options.search_paths(), &["a".to_owned(), "b".to_owned()]);
    assert_eq!(options.assembly_output_dir(), Some("out"));
}

#[test]
fn shader_stages_map_to_vulkan_stage_bits() {
    assert_eq!(vulkan_stage(ShaderStage::Vertex), 0x1);
    assert_eq!(vulkan_stage(ShaderStage::TessellationControl), 0x2);
    assert_eq!(vulkan_stage(ShaderStage::TessellationEvaluation), 0x4);
    assert_eq!(vulkan_stage(ShaderStage::Geometry), 0x8);
    assert_eq!(vulkan_stage(ShaderStage::Fragment), 0x10);
    assert_eq!(vulkan_stage(ShaderStage::Compute), 0x20);
}

#[test]
fn compile_requests_are_checked_before_compiling() {
    assert!(has_nul("a\0b"));
    assert!(!has_nul("ab"));
    assert_eq!(check_search_path("shaders"), Ok(()));
    assert_eq!(
        check_search_path("sha\0ders"),
        Err(ShaderCompileError::InvalidSearchPath { path: "sha\0ders".to_owned() })
    );
    assert_eq!(check_compile_request("triangle", 2), Ok(()));
    assert_eq!(check_compile_request("tri\0angle", 0), Err(ShaderCompileError::InvalidModuleName));
    assert_eq!(
        check_compile_request("triangle", 0),
        Err(ShaderCompileError::NoEntrypoints { module: "triangle".to_owned() })
    );
    let entrypoint = ShaderEntrypoint::new("vertexMain", ShaderStage::Vertex);
    assert_eq!(entrypoint.name(), "vertexMain");
    assert_eq!(entrypoint.stage(), ShaderStage::Vertex);
    let compiled = check_entrypoint(&entrypoint).unwrap();
    assert_eq!(compiled.name(), "vertexMain");
    assert_eq!(compiled.stage(), ShaderStage::Vertex);
    assert_eq!(
        check_entrypoint(&ShaderEntrypoint::new("main\0", ShaderStage::Fragment)),
        Err(ShaderCompileError::InvalidEntrypointName { entrypoint: "main\0".to_owned() })
    );
}

#[test]
fn assembly_is_written_next_to_module_name() {
    assert_eq!(assembly_output_path("shaders", "triangle"), "shaders/triangle.slang.asm");
}

#[test]
fn compiled_shader_keeps_compiler_output() {
    let entrypoint = check_entrypoint(&ShaderEntrypoint::new("main", ShaderStage::Compute)).unwrap();
    let shader = CompiledShader::from_output(
        "squares",
        &[0x03, 0x02, 0x23, 0x07, 1, 0, 0, 0],
        b"; SPIR-V".to_vec(),
        vec![entrypoint.clone()],
    )
    .unwrap();
    assert_eq!(shader.module(), "squares");
    assert_eq!(shader.spirv_words(), &[0x0723_0203, 1]);
    assert_eq!(shader.spirv_assembly(), b"; SPIR-V");
    assert_eq!(shader.entrypoints(), &[entrypoint]);
    assert_eq!(
        CompiledShader::from_output("squares", &[1, 2], vec![], vec![]),
        Err(ShaderCompileError::InvalidSpirvBytecode { module: "squares".to_owned(), len: 2 })
    );
}

#[test]
fn shader_stage_bits_match_ash() {
    assert_eq!(vulkan_stage(ShaderStage::Vertex), ShaderStageFlags::VERTEX.as_raw());
    assert_eq!(vulkan_stage(ShaderStage::Fragment), ShaderStageFlags::FRAGMENT.as_raw());
    assert_eq!(vulkan_stage(ShaderStage::Compute), ShaderStageFlags::COMPUTE.as_raw());
    assert_eq!(vulkan_stage(ShaderStage::Geometry), ShaderStageFlags::GEOMETRY.as_raw());
    assert_eq!(
        vulkan_stage(ShaderStage::TessellationControl),
        ShaderStageFlags::TESSELLATION_CONTROL.as_raw()
    );
    assert_eq!(
        vulkan_stage(ShaderStage::TessellationEvaluation),
        ShaderStageFlags::TESSELLATION_EVALUATION.as_raw()
    );
}
