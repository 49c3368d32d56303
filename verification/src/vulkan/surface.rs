//! Surface and swapchain parameters chosen from what a surface supports.

use vstd::prelude::*;
use crate::extent::RenderExtent;

verus! {

/// `VK_FORMAT_UNDEFINED`.
pub const FORMAT_UNDEFINED: i32 = 0;

/// `VK_FORMAT_R8G8B8A8_UNORM`.
pub const FORMAT_R8G8B8A8_UNORM: i32 = 37;

/// `VK_FORMAT_R8G8B8A8_SRGB`.
pub const FORMAT_R8G8B8A8_SRGB: i32 = 43;

/// `VK_FORMAT_B8G8R8A8_SRGB`.
pub const FORMAT_B8G8R8A8_SRGB: i32 = 50;

/// `VK_COLOR_SPACE_SRGB_NONLINEAR_KHR`.
pub const COLOR_SPACE_SRGB_NONLINEAR: i32 = 0;

/// `VK_PRESENT_MODE_IMMEDIATE_KHR`.
pub const PRESENT_MODE_IMMEDIATE: i32 = 0;

/// `VK_PRESENT_MODE_MAILBOX_KHR`.
pub const PRESENT_MODE_MAILBOX: i32 = 1;

/// `VK_PRESENT_MODE_FIFO_KHR`.
pub const PRESENT_MODE_FIFO: i32 = 2;

/// `VK_IMAGE_USAGE_COLOR_ATTACHMENT_BIT`.
pub const IMAGE_USAGE_COLOR_ATTACHMENT: u32 = 0x10;

/// `VK_COMPOSITE_ALPHA_OPAQUE_BIT_KHR`.
pub const COMPOSITE_ALPHA_OPAQUE: u32 = 0x1;

/// `VK_COMPOSITE_ALPHA_PRE_MULTIPLIED_BIT_KHR`.
pub const COMPOSITE_ALPHA_PRE_MULTIPLIED: u32 = 0x2;

/// `VK_COMPOSITE_ALPHA_POST_MULTIPLIED_BIT_KHR`.
pub const COMPOSITE_ALPHA_POST_MULTIPLIED: u32 = 0x4;

/// `VK_COMPOSITE_ALPHA_INHERIT_BIT_KHR`.
pub const COMPOSITE_ALPHA_INHERIT: u32 = 0x8;

/// A pixel format together with its color space.
#[derive(Clone, Copy, Debug, PartialEq, Eq, Structural)]
pub struct SurfaceFormat {
    pub format: i32,
    pub color_space: i32,
}

/// The format the renderer prefers for presentation.
pub open spec fn spec_preferred_format() -> SurfaceFormat {
    SurfaceFormat { format: FORMAT_B8G8R8A8_SRGB, color_space: COLOR_SPACE_SRGB_NONLINEAR }
}

/// The format the renderer prefers for presentation: sRGB BGRA8 in the
/// sRGB non-linear color space.
pub fn preferred_format() -> (format: SurfaceFormat)
    ensures
        format == spec_preferred_format(),
{
    SurfaceFormat { format: FORMAT_B8G8R8A8_SRGB, color_space: COLOR_SPACE_SRGB_NONLINEAR }
}

/// What a surface reports about the images it can present.
#[derive(Clone, Copy, Debug, PartialEq, Eq, Structural)]
pub struct SurfaceCapabilities {
    pub min_image_count: u32,
    /// Zero stands for "no maximum".
    pub max_image_count: u32,
    /// A width of `u32::MAX` means that the window decides the extent.
    pub current_extent: RenderExtent,
    pub min_image_extent: RenderExtent,
    pub max_image_extent: RenderExtent,
    pub supported_usage_flags: u32,
    pub supported_composite_alpha: u32,
    pub current_transform: u32,
}

/// Whether `flags` holds every bit of `bits`.
pub open spec fn contains_bits(flags: u32, bits: u32) -> bool {
    flags & bits == bits
}

fn has_bits(flags: u32, bits: u32) -> (has: bool)
    ensures
        has == contains_bits(flags, bits),
{
    flags & bits == bits
}

/// `value` clamped to `[low, high]`.
pub open spec fn clamp(value: u32, low: u32, high: u32) -> u32 {
    if value < low {
        low
    } else if value > high {
        high
    } else {
        value
    }
}

/// The extent for the swapchain: the surface's own extent when it fixes
/// one, else the window size clamped to the surface limits.
pub open spec fn spec_choose_extent(
    capabilities: SurfaceCapabilities,
    window: RenderExtent,
) -> RenderExtent {
    if capabilities.current_extent.width != u32::MAX {
        capabilities.current_extent
    } else {
        RenderExtent {
            width: clamp(
                window.width,
                capabilities.min_image_extent.width,
                capabilities.max_image_extent.width,
            ),
            height: clamp(
                window.height,
                capabilities.min_image_extent.height,
                capabilities.max_image_extent.height,
            ),
        }
    }
}

/// Whether the surface limits are ordered, so that clamping to them is
/// defined.
pub open spec fn limits_ordered(capabilities: SurfaceCapabilities) -> bool {
    capabilities.min_image_extent.width <= capabilities.max_image_extent.width
        && capabilities.min_image_extent.height <= capabilities.max_image_extent.height
}

fn clamp_u32(value: u32, low: u32, high: u32) -> (clamped: u32)
    requires
        low <= high,
    ensures
        clamped == clamp(value, low, high),
        low <= clamped <= high,
{
    if value < low {
        low
    } else if value > high {
        high
    } else {
        value
    }
}

/// Chooses the swapchain extent for a window of the given size.
pub fn choose_extent(capabilities: &SurfaceCapabilities, window: RenderExtent) -> (extent:
    RenderExtent)
    requires
        capabilities.current_extent.width == u32::MAX ==> limits_ordered(*capabilities),
    ensures
        extent == spec_choose_extent(*capabilities, window),
        capabilities.current_extent.width == u32::MAX ==> {
            &&& capabilities.min_image_extent.width <= extent.width
                <= capabilities.max_image_extent.width
            &&& capabilities.min_image_extent.height <= extent.height
                <= capabilities.max_image_extent.height
        },
{
    if capabilities.current_extent.width != u32::MAX {
        return capabilities.current_extent;
    }
    RenderExtent {
        width: clamp_u32(
            window.width,
            capabilities.min_image_extent.width,
            capabilities.max_image_extent.width,
        ),
        height: clamp_u32(
            window.height,
            capabilities.min_image_extent.height,
            capabilities.max_image_extent.height,
        ),
    }
}

/// Why no surface configuration could be chosen.
#[derive(Clone, Copy, Debug, PartialEq, Eq, Structural)]
pub enum SurfaceConfigError {
    /// The surface reports no formats.
    NoSurfaceFormats,
    /// The surface reports no present modes.
    NoPresentModes,
}

/// Index of the first format equal to the preferred one among the first
/// `n`.
pub open spec fn first_preferred(formats: Seq<SurfaceFormat>, n: nat) -> Option<int>
    decreases n,
{
    if n == 0 {
        None
    } else {
        match first_preferred(formats, (n - 1) as nat) {
            Some(i) => Some(i),
            None => if formats[n - 1] == spec_preferred_format() {
                Some(n - 1)
            } else {
                None
            },
        }
    }
}

/// The surface format to present with: the preferred one when the surface
/// leaves the choice open or offers it, else the first one offered.
pub open spec fn spec_choose_surface_format(formats: Seq<SurfaceFormat>) -> Result<
    SurfaceFormat,
    SurfaceConfigError,
> {
    if formats.len() == 0 {
        Err(SurfaceConfigError::NoSurfaceFormats)
    } else if formats.len() == 1 && formats[0].format == FORMAT_UNDEFINED {
        Ok(spec_preferred_format())
    } else {
        match first_preferred(formats, formats.len()) {
            Some(i) => Ok(formats[i]),
            None => Ok(formats[0]),
        }
    }
}

proof fn lemma_first_preferred(formats: Seq<SurfaceFormat>, n: nat)
    requires
        n <= formats.len(),
    ensures
        match first_preferred(formats, n) {
            Some(i) => 0 <= i < n && formats[i] == spec_preferred_format(),
            None => forall|j: int| 0 <= j < n ==> formats[j] != spec_preferred_format(),
        },
    decreases n,
{
    if n > 0 {
        lemma_first_preferred(formats, (n - 1) as nat);
    }
}

/// Chooses the surface format to present with.
pub fn choose_surface_format(formats: &[SurfaceFormat]) -> (chosen: Result<
    SurfaceFormat,
    SurfaceConfigError,
>)
    ensures
        chosen == spec_choose_surface_format(formats@),
        chosen matches Ok(f) ==> f == spec_preferred_format() || formats@.contains(f),
{
    if formats.len() == 0 {
        return Err(SurfaceConfigError::NoSurfaceFormats);
    }
    if formats.len() == 1 && formats[0].format == FORMAT_UNDEFINED {
        return Ok(preferred_format());
    }
    let preferred = preferred_format();
    let mut index: usize = 0;
    while index < formats.len()
        invariant
            0 <= index <= formats@.len(),
            first_preferred(formats@, index as nat).is_none(),
            preferred == spec_preferred_format(),
        decreases formats@.len() - index,
    {
        let format = formats[index];
        if format.format == preferred.format && format.color_space == preferred.color_space {
            assert(first_preferred(formats@, (index + 1) as nat) == Some(index as int));
            proof {
                lemma_first_preferred(formats@, formats@.len());
                lemma_first_preferred_stable(formats@, (index + 1) as nat, formats@.len());
            }
            return Ok(format);
        }
        index = index + 1;
    }
    proof {
        assert(formats@.contains(formats@[0]));
    }
    Ok(formats[0])
}

proof fn lemma_first_preferred_stable(formats: Seq<SurfaceFormat>, m: nat, n: nat)
    requires
        first_preferred(formats, m).is_some(),
        m <= n,
    ensures
        first_preferred(formats, n) == first_preferred(formats, m),
    decreases n - m,
{
    if m < n {
        lemma_first_preferred_stable(formats, m, (n - 1) as nat);
    }
}

/// The present mode: immediate when vertical sync is off and the surface
/// offers it, else FIFO, which every surface supports.
pub open spec fn spec_choose_present_mode(present_modes: Seq<i32>, vsync: bool) -> Result<
    i32,
    SurfaceConfigError,
> {
    if present_modes.len() == 0 {
        Err(SurfaceConfigError::NoPresentModes)
    } else if !vsync && present_modes.contains(PRESENT_MODE_IMMEDIATE) {
        Ok(PRESENT_MODE_IMMEDIATE)
    } else {
        Ok(PRESENT_MODE_FIFO)
    }
}

/// Chooses the present mode for the requested vertical-sync setting.
pub fn choose_present_mode(present_modes: &[i32], vsync: bool) -> (chosen: Result<
    i32,
    SurfaceConfigError,
>)
    ensures
        chosen == spec_choose_present_mode(present_modes@, vsync),
{
    if present_modes.len() == 0 {
        return Err(SurfaceConfigError::NoPresentModes);
    }
    if !vsync {
        let mut index: usize = 0;
        while index < present_modes.len()
            invariant
                !vsync,
                present_modes@.len() != 0,
                0 <= index <= present_modes@.len(),
                forall|j: int| 0 <= j < index ==> present_modes@[j] != PRESENT_MODE_IMMEDIATE,
            decreases present_modes@.len() - index,
        {
            if present_modes[index] == PRESENT_MODE_IMMEDIATE {
                assert(present_modes@[index as int] == PRESENT_MODE_IMMEDIATE);
                assert(present_modes@.contains(PRESENT_MODE_IMMEDIATE));
                return Ok(PRESENT_MODE_IMMEDIATE);
            }
            index = index + 1;
        }
    }
    Ok(PRESENT_MODE_FIFO)
}

/// Everything a surface reports for one physical device.
#[derive(Clone, Debug)]
pub struct SurfaceSupport {
    pub capabilities: SurfaceCapabilities,
    pub formats: Vec<SurfaceFormat>,
    pub present_modes: Vec<i32>,
}

/// The surface configuration a swapchain is created with.
#[derive(Clone, Debug)]
pub struct SurfaceConfig {
    pub capabilities: SurfaceCapabilities,
    pub formats: Vec<SurfaceFormat>,
    pub present_modes: Vec<i32>,
    pub extent: RenderExtent,
    pub surface_format: SurfaceFormat,
    pub present_mode: i32,
}

/// Chooses extent, format and present mode for a surface, failing when the
/// surface offers no format or no present mode.
pub fn make_surface_config(support: SurfaceSupport, window: RenderExtent, vsync: bool) -> (config:
    Result<SurfaceConfig, SurfaceConfigError>)
    requires
        support.capabilities.current_extent.width == u32::MAX ==> limits_ordered(
            support.capabilities,
        ),
    ensures
        match config {
            Ok(c) => {
                &&& spec_choose_surface_format(support.formats@) == Ok::<
                    SurfaceFormat,
                    SurfaceConfigError,
                >(c.surface_format)
                &&& spec_choose_present_mode(support.present_modes@, vsync) == Ok::<
                    i32,
                    SurfaceConfigError,
                >(c.present_mode)
                &&& c.extent == spec_choose_extent(support.capabilities, window)
                &&& c.capabilities == support.capabilities
                &&& c.formats@ == support.formats@
                &&& c.present_modes@ == support.present_modes@
            },
            Err(e) => {
                ||| spec_choose_surface_format(support.formats@) == Err::<
                    SurfaceFormat,
                    SurfaceConfigError,
                >(e)
                ||| spec_choose_surface_format(support.formats@) is Ok
                    && spec_choose_present_mode(support.present_modes@, vsync) == Err::<
                    i32,
                    SurfaceConfigError,
                >(e)
            },
        },
{
    let extent = choose_extent(&support.capabilities, window);
    let surface_format = match choose_surface_format(support.formats.as_slice()) {
        Ok(f) => f,
        Err(e) => return Err(e),
    };
    let present_mode = match choose_present_mode(support.present_modes.as_slice(), vsync) {
        Ok(m) => m,
        Err(e) => return Err(e),
    };
    Ok(
        SurfaceConfig {
            capabilities: support.capabilities,
            formats: support.formats,
            present_modes: support.present_modes,
            extent,
            surface_format,
            present_mode,
        },
    )
}

/// Number of swapchain images to ask for: one more than the minimum,
/// capped by the maximum when the surface has one.
pub open spec fn spec_choose_image_count(capabilities: SurfaceCapabilities) -> u32 {
    let desired = (capabilities.min_image_count + 1) as u32;
    if capabilities.max_image_count > 0 && desired > capabilities.max_image_count {
        capabilities.max_image_count
    } else {
        desired
    }
}

/// Chooses how many images the swapchain should hold.
pub fn choose_image_count(capabilities: &SurfaceCapabilities) -> (count: u32)
    requires
        capabilities.min_image_count < u32::MAX,
    ensures
        count == spec_choose_image_count(*capabilities),
        capabilities.max_image_count == 0 || capabilities.min_image_count
            < capabilities.max_image_count ==> count == capabilities.min_image_count + 1,
{
    let desired = capabilities.min_image_count + 1;
    if capabilities.max_image_count > 0 && desired > capabilities.max_image_count {
        capabilities.max_image_count
    } else {
        desired
    }
}

/// Why a swapchain cannot be created for a surface.
#[derive(Clone, Copy, Debug, PartialEq, Eq, Structural)]
pub enum SwapchainPlanError {
    /// Surface does not support presenting color attachment images.
    UnsupportedColorAttachment,
    /// Surface does not support a known composite alpha mode.
    UnsupportedCompositeAlpha,
}

/// The first composite alpha mode, in the order opaque, pre-multiplied,
/// post-multiplied, inherit, that the surface supports.
pub open spec fn spec_choose_composite_alpha(capabilities: SurfaceCapabilities) -> Result<
    u32,
    SwapchainPlanError,
> {
    let supported = capabilities.supported_composite_alpha;
    if contains_bits(supported, COMPOSITE_ALPHA_OPAQUE) {
        Ok(COMPOSITE_ALPHA_OPAQUE)
    } else if contains_bits(supported, COMPOSITE_ALPHA_PRE_MULTIPLIED) {
        Ok(COMPOSITE_ALPHA_PRE_MULTIPLIED)
    } else if contains_bits(supported, COMPOSITE_ALPHA_POST_MULTIPLIED) {
        Ok(COMPOSITE_ALPHA_POST_MULTIPLIED)
    } else if contains_bits(supported, COMPOSITE_ALPHA_INHERIT) {
        Ok(COMPOSITE_ALPHA_INHERIT)
    } else {
        Err(SwapchainPlanError::UnsupportedCompositeAlpha)
    }
}

/// Chooses the composite alpha mode of the swapchain.
pub fn choose_composite_alpha(capabilities: &SurfaceCapabilities) -> (chosen: Result<
    u32,
    SwapchainPlanError,
>)
    ensures
        chosen == spec_choose_composite_alpha(*capabilities),
{
    let supported = capabilities.supported_composite_alpha;
    if has_bits(supported, COMPOSITE_ALPHA_OPAQUE) {
        Ok(COMPOSITE_ALPHA_OPAQUE)
    } else if has_bits(supported, COMPOSITE_ALPHA_PRE_MULTIPLIED) {
        Ok(COMPOSITE_ALPHA_PRE_MULTIPLIED)
    } else if has_bits(supported, COMPOSITE_ALPHA_POST_MULTIPLIED) {
        Ok(COMPOSITE_ALPHA_POST_MULTIPLIED)
    } else if has_bits(supported, COMPOSITE_ALPHA_INHERIT) {
        Ok(COMPOSITE_ALPHA_INHERIT)
    } else {
        Err(SwapchainPlanError::UnsupportedCompositeAlpha)
    }
}

/// Image count and composite alpha mode for a new swapchain.
#[derive(Clone, Copy, Debug, PartialEq, Eq, Structural)]
pub struct SwapchainPlan {
    pub image_count: u32,
    pub composite_alpha: u32,
}

/// The swapchain plan: image count, then the color-attachment usage check,
/// then the composite alpha mode.
pub open spec fn spec_plan_swapchain(capabilities: SurfaceCapabilities) -> Result<
    SwapchainPlan,
    SwapchainPlanError,
> {
    if !contains_bits(capabilities.supported_usage_flags, IMAGE_USAGE_COLOR_ATTACHMENT) {
        Err(SwapchainPlanError::UnsupportedColorAttachment)
    } else {
        match spec_choose_composite_alpha(capabilities) {
            Ok(alpha) => Ok(
                SwapchainPlan {
                    image_count: spec_choose_image_count(capabilities),
                    composite_alpha: alpha,
                },
            ),
            Err(e) => Err(e),
        }
    }
}

/// Decides the parameters of a swapchain for a surface.
pub fn plan_swapchain(capabilities: &SurfaceCapabilities) -> (plan: Result<
    SwapchainPlan,
    SwapchainPlanError,
>)
    requires
        capabilities.min_image_count < u32::MAX,
    ensures
        plan == spec_plan_swapchain(*capabilities),
{
    let image_count = choose_image_count(capabilities);
    if !has_bits(capabilities.supported_usage_flags, IMAGE_USAGE_COLOR_ATTACHMENT) {
        return Err(SwapchainPlanError::UnsupportedColorAttachment);
    }
    match choose_composite_alpha(capabilities) {
        Ok(composite_alpha) => Ok(SwapchainPlan { image_count, composite_alpha }),
        Err(e) => Err(e),
    }
}

/// Whether a surface supports what the renderer needs of a swapchain.
pub open spec fn spec_swapchain_adequate(support: SurfaceSupport) -> bool {
    &&& support.formats@.len() != 0
    &&& support.present_modes@.len() != 0
    &&& contains_bits(support.capabilities.supported_usage_flags, IMAGE_USAGE_COLOR_ATTACHMENT)
    &&& spec_choose_composite_alpha(support.capabilities) is Ok
}

/// Checks that a surface offers a format, a present mode, color-attachment
/// images and a known composite alpha mode.
pub fn swapchain_adequate(support: &SurfaceSupport) -> (adequate: bool)
    ensures
        adequate == spec_swapchain_adequate(*support),
{
    support.formats.len() != 0 && support.present_modes.len() != 0 && has_bits(
        support.capabilities.supported_usage_flags,
        IMAGE_USAGE_COLOR_ATTACHMENT,
    ) && choose_composite_alpha(&support.capabilities).is_ok()
}

/// When the surface leaves the extent to the window, each side of the
/// chosen extent is the window's side pulled into the surface limits: the
/// window's own size whenever it lies within them, the lower limit below
/// them, the upper limit above them.
pub proof fn lemma_window_extent_kept_within_limits(
    capabilities: SurfaceCapabilities,
    window: RenderExtent,
)
    requires
        capabilities.current_extent.width == u32::MAX,
        limits_ordered(capabilities),
    ensures
        ({
            let e = spec_choose_extent(capabilities, window);
            let lo = capabilities.min_image_extent;
            let hi = capabilities.max_image_extent;
            &&& lo.width <= window.width <= hi.width ==> e.width == window.width
            &&& lo.height <= window.height <= hi.height ==> e.height == window.height
            &&& window.width < lo.width ==> e.width == lo.width
            &&& window.height < lo.height ==> e.height == lo.height
            &&& window.width > hi.width ==> e.width == hi.width
            &&& window.height > hi.height ==> e.height == hi.height
        }),
{
}

/// A surface that fixes its extent gets exactly that extent, whatever the
/// window's size.
pub proof fn lemma_fixed_surface_extent_wins(capabilities: SurfaceCapabilities, window: RenderExtent)
    requires
        capabilities.current_extent.width != u32::MAX,
    ensures
        spec_choose_extent(capabilities, window) == capabilities.current_extent,
{
}

/// Presentation is immediate exactly when vertical sync is off and the
/// surface offers immediate presentation; every other surface with present
/// modes gets FIFO.
pub proof fn lemma_present_mode_follows_vsync(present_modes: Seq<i32>, vsync: bool)
    requires
        present_modes.len() > 0,
    ensures
        spec_choose_present_mode(present_modes, vsync) is Ok,
        (spec_choose_present_mode(present_modes, vsync) == Ok::<i32, SurfaceConfigError>(
            PRESENT_MODE_IMMEDIATE,
        )) <==> (!vsync && exists|i: int| 0 <= i < present_modes.len() && present_modes[i] == PRESENT_MODE_IMMEDIATE),
        !(spec_choose_present_mode(present_modes, vsync) == Ok::<i32, SurfaceConfigError>(
            PRESENT_MODE_IMMEDIATE,
        )) ==> spec_choose_present_mode(present_modes, vsync) == Ok::<i32, SurfaceConfigError>(
            PRESENT_MODE_FIFO,
        ),
{
    if !vsync && exists|i: int| 0 <= i < present_modes.len() && present_modes[i] == PRESENT_MODE_IMMEDIATE {
        let i = choose|i: int| 0 <= i < present_modes.len() && present_modes[i] == PRESENT_MODE_IMMEDIATE;
        assert(present_modes.contains(PRESENT_MODE_IMMEDIATE));
    }
}

/// The swapchain asks for one image more than the surface's minimum, unless
/// that exceeds a maximum the surface sets, in which case it asks for the
/// maximum.
pub proof fn lemma_image_count_one_above_minimum(capabilities: SurfaceCapabilities)
    requires
        capabilities.min_image_count < u32::MAX,
    ensures
        ({
            let count = spec_choose_image_count(capabilities);
            let min = capabilities.min_image_count;
            let max = capabilities.max_image_count;
            &&& (max == 0 || min + 1 <= max) ==> count == min + 1
            &&& (max > 0 && min + 1 > max) ==> count == max
            &&& max > 0 ==> count <= max
        }),
{
}

} // verus!
