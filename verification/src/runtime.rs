//! Application configuration and renderer backend selection policy.

use vstd::prelude::*;
use crate::extent::RenderExtent;
use crate::scene::{RenderCamera, RenderScene, SceneModel};
use crate::text::{is_blank, spec_is_blank};

verus! {

/// Name given to an application that was not named.
pub const UNTITLED_APPLICATION: &'static str = "Untitled Application";

/// Errors returned while building an application host.
#[derive(Clone, Copy, Debug, PartialEq, Eq, Structural)]
pub enum ApplicationHostBuildError {
    /// Application name cannot be empty or whitespace-only.
    EmptyName,
}

/// The name an application host runs under: the given one, or
/// `Untitled Application`, refused when it is blank.
pub open spec fn spec_resolve_application_name(name: Option<Seq<char>>) -> Result<
    Seq<char>,
    ApplicationHostBuildError,
> {
    let resolved = match name {
        Some(n) => n,
        None => UNTITLED_APPLICATION@,
    };
    if spec_is_blank(resolved) {
        Err(ApplicationHostBuildError::EmptyName)
    } else {
        Ok(resolved)
    }
}

/// Decides the name an application host runs under.
pub fn resolve_application_name(name: Option<String>) -> (resolved: Result<
    String,
    ApplicationHostBuildError,
>)
    ensures
        match resolved {
            Ok(n) => spec_resolve_application_name(
                match name {
                    Some(s) => Some(s@),
                    None => None,
                },
            ) == Ok::<Seq<char>, ApplicationHostBuildError>(n@),
            Err(e) => spec_resolve_application_name(
                match name {
                    Some(s) => Some(s@),
                    None => None,
                },
            ) == Err::<Seq<char>, ApplicationHostBuildError>(e),
        },
{
    let resolved = match name {
        Some(n) => n,
        None => String::from_str(UNTITLED_APPLICATION),
    };
    if is_blank(resolved.as_str()) {
        Err(ApplicationHostBuildError::EmptyName)
    } else {
        Ok(resolved)
    }
}

/// Renderer backend selection mode.
#[derive(Clone, Copy, Debug, PartialEq, Eq, Structural)]
#[non_exhaustive]
pub enum RendererBackend {
    /// Chooses the best supported backend compiled into this binary.
    Auto,
    /// Forces the Vulkan backend.
    Vulkan,
}

impl Default for RendererBackend {
    /// Automatic choice.
    fn default() -> (backend: Self)
        ensures
            backend == RendererBackend::Auto,
    {
        RendererBackend::Auto
    }
}

/// Errors returned by compiled renderer backends.
#[derive(Clone, Copy, Debug, PartialEq, Eq, Structural)]
#[non_exhaustive]
pub enum RendererBackendError {
    /// Vulkan backend operation failed.
    Vulkan,
}

/// The backend that runs for a request, and whether it was chosen
/// automatically: `Auto` resolves to Vulkan, the only backend built in.
pub fn select_renderer_backend(requested: RendererBackend) -> (selected: (RendererBackend, bool))
    ensures
        selected.0 == RendererBackend::Vulkan,
        selected.1 == (requested == RendererBackend::Auto),
{
    match requested {
        RendererBackend::Auto => (RendererBackend::Vulkan, true),
        RendererBackend::Vulkan => (RendererBackend::Vulkan, false),
    }
}

/// What an application builder holds.
pub struct ApplicationConfig {
    pub name: Option<Seq<char>>,
    pub renderer_backend: RendererBackend,
    pub scene: SceneModel,
    pub vsync: bool,
}

/// Configures an application.
#[derive(Debug)]
pub struct ApplicationBuilder {
    name: Option<String>,
    renderer_backend: RendererBackend,
    scene: RenderScene,
    vsync: bool,
}

impl View for ApplicationBuilder {
    type V = ApplicationConfig;

    closed spec fn view(&self) -> ApplicationConfig {
        ApplicationConfig {
            name: match self.name {
                Some(n) => Some(n@),
                None => None,
            },
            renderer_backend: self.renderer_backend,
            scene: self.scene@,
            vsync: self.vsync,
        }
    }
}

impl Default for ApplicationBuilder {
    /// The builder [`ApplicationBuilder::new`] gives.
    fn default() -> (builder: Self)
        ensures
            builder@.name.is_none(),
            builder@.renderer_backend == RendererBackend::Auto,
            builder@.scene.meshes.len() == 0,
            builder@.scene.materials.len() == 0,
            builder@.scene.objects.len() == 0,
            builder@.scene.camera == RenderCamera::spec_default(),
            !builder@.vsync,
    {
        Self::new()
    }
}

impl ApplicationBuilder {
    /// A builder with no name, automatic backend choice, an empty scene and
    /// vertical sync off.
    pub fn new() -> (builder: Self)
        ensures
            builder@.name.is_none(),
            builder@.renderer_backend == RendererBackend::Auto,
            builder@.scene.meshes.len() == 0,
            builder@.scene.materials.len() == 0,
            builder@.scene.objects.len() == 0,
            builder@.scene.camera == RenderCamera::spec_default(),
            !builder@.vsync,
    {
        ApplicationBuilder {
            name: None,
            renderer_backend: RendererBackend::Auto,
            scene: RenderScene::empty(),
            vsync: false,
        }
    }

    /// Sets the human-readable application name.
    pub fn with_name(self, name: &str) -> (builder: Self)
        ensures
            builder@.name == Some(name@),
            builder@.renderer_backend == self@.renderer_backend,
            builder@.scene == self@.scene,
            builder@.vsync == self@.vsync,
    {
        let mut builder = self;
        builder.name = Some(String::from_str(name));
        builder
    }

    /// Selects the renderer backend policy.
    pub fn with_renderer_backend(self, backend: RendererBackend) -> (builder: Self)
        ensures
            builder@.name == self@.name,
            builder@.renderer_backend == backend,
            builder@.scene == self@.scene,
            builder@.vsync == self@.vsync,
    {
        let mut builder = self;
        builder.renderer_backend = backend;
        builder
    }

    /// Enables or disables vertical synchronization.
    pub fn with_vsync(self, on: bool) -> (builder: Self)
        ensures
            builder@.name == self@.name,
            builder@.renderer_backend == self@.renderer_backend,
            builder@.scene == self@.scene,
            builder@.vsync == on,
    {
        let mut builder = self;
        builder.vsync = on;
        builder
    }

    /// Sets the initial renderer scene.
    pub fn with_scene(self, scene: RenderScene) -> (builder: Self)
        ensures
            builder@.name == self@.name,
            builder@.renderer_backend == self@.renderer_backend,
            builder@.scene == scene@,
            builder@.vsync == self@.vsync,
    {
        let mut builder = self;
        builder.scene = scene;
        builder
    }

    /// Splits the builder into name, backend, scene and vertical sync.
    pub fn into_parts(self) -> (parts: (Option<String>, RendererBackend, RenderScene, bool))
        ensures
            match parts.0 {
                Some(n) => self@.name == Some(n@),
                None => self@.name.is_none(),
            },
            parts.1 == self@.renderer_backend,
            parts.2@ == self@.scene,
            parts.3 == self@.vsync,
    {
        (self.name, self.renderer_backend, self.scene, self.vsync)
    }
}

/// Errors returned by Vulkan renderer operations.
#[derive(Clone, Copy, Debug, PartialEq, Eq, Structural)]
pub enum VulkanRendererError {
    /// Vulkan backend operation failed.
    Backend,
    /// Window drawable size is invalid for presentation.
    InvalidWindowSize(RenderExtent),
}

/// Configures a Vulkan renderer.
#[derive(Clone, Copy, Debug, PartialEq, Eq, Structural)]
pub struct VulkanRendererBuilder {
    vsync: bool,
}

impl Default for VulkanRendererBuilder {
    /// Vertical sync off.
    fn default() -> (builder: Self)
        ensures
            !builder.spec_vsync(),
    {
        VulkanRendererBuilder { vsync: false }
    }
}

impl VulkanRendererBuilder {
    pub closed spec fn spec_vsync(self) -> bool {
        self.vsync
    }

    /// Enables or disables vertical synchronization.
    pub fn with_vsync(self, on: bool) -> (builder: Self)
        ensures
            builder.spec_vsync() == on,
    {
        VulkanRendererBuilder { vsync: on }
    }

    /// Returns whether vertical synchronization is requested.
    pub fn vsync(self) -> (on: bool)
        ensures
            on == self.spec_vsync(),
    {
        self.vsync
    }

    /// Checks the window before a renderer is built for it: an empty
    /// drawable area cannot be presented to.
    pub fn check_window(self, extent: RenderExtent) -> (checked: Result<(), VulkanRendererError>)
        ensures
            match checked {
                Ok(()) => !extent.spec_is_empty(),
                Err(e) => extent.spec_is_empty() && e == VulkanRendererError::InvalidWindowSize(
                    extent,
                ),
            },
    {
        if extent.is_empty() {
            Err(VulkanRendererError::InvalidWindowSize(extent))
        } else {
            Ok(())
        }
    }
}

} // verus!
