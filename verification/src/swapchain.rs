//! Choice of the swapchain's settings from what a surface supports.

use vstd::prelude::*;

use crate::device::{
    graphics_family_index, graphics_family_spec, present_family_index, present_family_spec,
    DeviceError,
};
use crate::vk::{
    color_space_srgb_nonlinear, color_space_srgb_nonlinear_raw, format_b8g8r8a8_srgb,
    format_b8g8r8a8_srgb_raw, present_mode_fifo, present_mode_fifo_raw, present_mode_mailbox,
    present_mode_mailbox_raw,
};

verus! {

/// A format that a surface supports: raw `VkFormat` and `VkColorSpaceKHR`.
#[derive(Debug, Clone, Copy, PartialEq, Eq, Structural)]
pub struct SurfaceFormat {
    pub format: i32,
    pub color_space: i32,
}

/// Two-dimensional extent in pixels.
#[derive(Debug, Clone, Copy, PartialEq, Eq, Structural)]
pub struct Extent2D {
    pub width: u32,
    pub height: u32,
}

/// What a surface reports of the images a swapchain on it may have.
///
/// A `current_extent` whose width is `u32::MAX` means that the surface
/// lets the swapchain decide its extent; a `max_image_count` of zero means
/// that there is no limit.
#[derive(Debug, Clone, Copy, PartialEq, Eq, Structural)]
pub struct SurfaceCapabilities {
    pub min_image_count: u32,
    pub max_image_count: u32,
    pub current_extent: Extent2D,
    pub min_image_extent: Extent2D,
    pub max_image_extent: Extent2D,
}

/// Whether `format` is one that the engine prefers for presentation:
/// eight-bit sRGB in BGRA order, or any format in the sRGB color space.
pub open spec fn is_preferred_format(format: SurfaceFormat) -> bool {
    format.format == format_b8g8r8a8_srgb_raw() || format.color_space
        == color_space_srgb_nonlinear_raw()
}

/// The format that the swapchain takes from `formats`: the first preferred
/// one, else the first one, and none from an empty list.
pub open spec fn picked_format(formats: Seq<SurfaceFormat>) -> Option<SurfaceFormat> {
    if exists|i: int| 0 <= i < formats.len() && is_preferred_format(#[trigger] formats[i]) {
        let i = choose|i: int|
            0 <= i < formats.len() && is_preferred_format(#[trigger] formats[i]) && forall|j: int|
                0 <= j < i ==> !is_preferred_format(#[trigger] formats[j]);
        Some(formats[i])
    } else if formats.len() > 0 {
        Some(formats[0])
    } else {
        None
    }
}

/// Among the formats, the first one that meets `accepts` is the only one
/// that meets it with none before it.
proof fn lemma_first_accepted_is_unique(
    formats: Seq<SurfaceFormat>,
    accepts: spec_fn(SurfaceFormat) -> bool,
    i: int,
    k: int,
)
    requires
        0 <= i < formats.len(),
        0 <= k < formats.len(),
        accepts(formats[i]),
        accepts(formats[k]),
        forall|j: int| 0 <= j < i ==> !accepts(#[trigger] formats[j]),
        forall|j: int| 0 <= j < k ==> !accepts(#[trigger] formats[j]),
    ensures
        k == i,
{
    if k < i {
        assert(!accepts(formats[k]));
    } else if k > i {
        assert(!accepts(formats[i]));
    }
}

/// Picks the swapchain format among those that the surface supports.
pub fn pick_format(formats: &Vec<SurfaceFormat>) -> (picked: Option<SurfaceFormat>)
    ensures
        match picked {
            Some(f) => (exists|i: int|
                0 <= i < formats.len() && is_preferred_format(#[trigger] formats@[i]) && f
                    == formats@[i] && forall|j: int|
                    0 <= j < i ==> !is_preferred_format(#[trigger] formats@[j])) || (
            formats.len() > 0 && f == formats@[0] && forall|j: int|
                0 <= j < formats.len() ==> !is_preferred_format(#[trigger] formats@[j])),
            None => formats.len() == 0,
        },
        picked == picked_format(formats@),
{
    let srgb = format_b8g8r8a8_srgb();
    let nonlinear = color_space_srgb_nonlinear();
    let mut i: usize = 0;
    while i < formats.len()
        invariant
            0 <= i <= formats.len(),
            srgb == format_b8g8r8a8_srgb_raw(),
            nonlinear == color_space_srgb_nonlinear_raw(),
            forall|j: int| 0 <= j < i ==> !is_preferred_format(#[trigger] formats@[j]),
        decreases formats.len() - i,
    {
        let f = formats[i];
        if f.format == srgb || f.color_space == nonlinear {
            proof {
                assert(is_preferred_format(formats@[i as int]));
                assert(exists|k: int|
                    0 <= k < formats@.len() && is_preferred_format(#[trigger] formats@[k])
                        && forall|j: int| 0 <= j < k ==> !is_preferred_format(#[trigger] formats@[j]));
                let k = choose|k: int|
                    0 <= k < formats@.len() && is_preferred_format(#[trigger] formats@[k])
                        && forall|j: int| 0 <= j < k ==> !is_preferred_format(#[trigger] formats@[j]);
                lemma_first_accepted_is_unique(formats@, |f: SurfaceFormat| is_preferred_format(f), i as int, k);
            }
            return Some(f);
        }
        i = i + 1;
    }
    if formats.len() > 0 {
        Some(formats[0])
    } else {
        None
    }
}

/// The present mode that the swapchain takes: mailbox when the surface
/// supports it, else FIFO, which every surface supports.
pub open spec fn picked_present_mode(present_modes: Seq<i32>) -> i32 {
    if present_modes.contains(present_mode_mailbox_raw()) {
        present_mode_mailbox_raw()
    } else {
        present_mode_fifo_raw()
    }
}

/// Picks the present mode among the raw `VkPresentModeKHR` values that the
/// surface supports.
pub fn pick_present_mode(present_modes: &Vec<i32>) -> (mode: i32)
    ensures
        mode == picked_present_mode(present_modes@),
        mode == present_mode_mailbox_raw() || mode == present_mode_fifo_raw(),
        mode == present_mode_mailbox_raw() <==> present_modes@.contains(present_mode_mailbox_raw()),
{
    let mailbox = present_mode_mailbox();
    let mut i: usize = 0;
    while i < present_modes.len()
        invariant
            0 <= i <= present_modes.len(),
            mailbox == present_mode_mailbox_raw(),
            forall|j: int| 0 <= j < i ==> present_modes@[j] != mailbox,
        decreases present_modes.len() - i,
    {
        if present_modes[i] == mailbox {
            assert(present_modes@.contains(mailbox));
            return mailbox;
        }
        i = i + 1;
    }
    present_mode_fifo()
}

/// The swapchain runs in mailbox mode exactly when the surface offers it,
/// and in FIFO mode in every other case, whatever other modes the surface
/// lists: no other mode is ever chosen.
pub proof fn lemma_present_mode_is_mailbox_or_fifo(present_modes: Seq<i32>)
    ensures
        picked_present_mode(present_modes) == present_mode_mailbox_raw()
            || picked_present_mode(present_modes) == present_mode_fifo_raw(),
        picked_present_mode(present_modes) == present_mode_mailbox_raw()
            <==> present_modes.contains(present_mode_mailbox_raw()),
        !present_modes.contains(present_mode_mailbox_raw()) ==> picked_present_mode(present_modes)
            == present_mode_fifo_raw(),
        present_mode_mailbox_raw() != present_mode_fifo_raw(),
{
}

/// `value` brought into the range from `min` to `max`.
pub open spec fn clamp_spec(value: u32, min: u32, max: u32) -> u32 {
    if value < min {
        min
    } else if value > max {
        max
    } else {
        value
    }
}

/// Brings `value` into the range from `min` to `max`.
pub fn clamp(value: u32, min: u32, max: u32) -> (clamped: u32)
    requires
        min <= max,
    ensures
        clamped == clamp_spec(value, min, max),
{
    if value < min {
        min
    } else if value > max {
        max
    } else {
        value
    }
}

/// Whether the surface lets the swapchain decide its extent.
pub open spec fn extent_is_free(capabilities: SurfaceCapabilities) -> bool {
    capabilities.current_extent.width == u32::MAX
}

/// Whether the surface's extent limits are ordered, as clamping needs.
pub open spec fn extent_limits_ordered(capabilities: SurfaceCapabilities) -> bool {
    &&& capabilities.min_image_extent.width <= capabilities.max_image_extent.width
    &&& capabilities.min_image_extent.height <= capabilities.max_image_extent.height
}

/// The swapchain's extent: the surface's current extent, or, where the
/// surface lets the swapchain decide, the window's size within the
/// surface's limits.
pub open spec fn picked_extent(window: Extent2D, capabilities: SurfaceCapabilities) -> Extent2D {
    if !extent_is_free(capabilities) {
        capabilities.current_extent
    } else {
        Extent2D {
            width: clamp_spec(
                window.width,
                capabilities.min_image_extent.width,
                capabilities.max_image_extent.width,
            ),
            height: clamp_spec(
                window.height,
                capabilities.min_image_extent.height,
                capabilities.max_image_extent.height,
            ),
        }
    }
}

/// Picks the extent of the swapchain's images for a window of size `window`.
pub fn pick_extent(window: Extent2D, capabilities: &SurfaceCapabilities) -> (extent: Extent2D)
    requires
        extent_is_free(*capabilities) ==> extent_limits_ordered(*capabilities),
    ensures
        extent == picked_extent(window, *capabilities),
{
    if capabilities.current_extent.width != u32::MAX {
        capabilities.current_extent
    } else {
        Extent2D {
            width: clamp(
                window.width,
                capabilities.min_image_extent.width,
                capabilities.max_image_extent.width,
            ),
            height: clamp(
                window.height,
                capabilities.min_image_extent.height,
                capabilities.max_image_extent.height,
            ),
        }
    }
}

/// Number of images the swapchain asks for: one more than the surface's
/// minimum, but no more than its maximum where it has one.
pub open spec fn min_image_count_spec(capabilities: SurfaceCapabilities) -> int {
    let wanted = capabilities.min_image_count + 1;
    if capabilities.max_image_count > 0 && wanted > capabilities.max_image_count {
        capabilities.max_image_count as int
    } else {
        wanted
    }
}

/// Computes the number of images the swapchain asks for.
pub fn min_image_count(capabilities: &SurfaceCapabilities) -> (count: u32)
    requires
        capabilities.min_image_count < u32::MAX,
    ensures
        count == min_image_count_spec(*capabilities),
{
    let mut count = capabilities.min_image_count + 1;
    if capabilities.max_image_count > 0 && count > capabilities.max_image_count {
        count = capabilities.max_image_count;
    }
    count
}

/// Whether a surface can hold a swapchain: it supports at least one format
/// and at least one present mode.
pub fn surface_is_suitable(formats: &Vec<SurfaceFormat>, present_modes: &Vec<i32>) -> (suitable:
    bool)
    ensures
        suitable == (formats.len() > 0 && present_modes.len() > 0),
{
    !formats.is_empty() && !present_modes.is_empty()
}

/// How the swapchain's images are shared between queue families.
#[derive(Debug, Clone, Copy, PartialEq, Eq, Structural)]
pub enum SharingMode {
    /// Owned by one queue family at a time.
    Exclusive,
    /// Used at once by the graphics and the present family.
    Concurrent { graphics: u32, present: u32 },
}

/// Images are shared concurrently when graphics and presentation happen on
/// different queue families, and exclusively otherwise.
pub open spec fn sharing_mode_spec(graphics: u32, present: u32) -> SharingMode {
    if graphics != present {
        SharingMode::Concurrent { graphics, present }
    } else {
        SharingMode::Exclusive
    }
}

/// Decides how the swapchain's images are shared.
pub fn sharing_mode(graphics: u32, present: u32) -> (mode: SharingMode)
    ensures
        mode == sharing_mode_spec(graphics, present),
{
    if graphics != present {
        SharingMode::Concurrent { graphics, present }
    } else {
        SharingMode::Exclusive
    }
}

/// Error that can happen while deciding the settings of a swapchain.
#[derive(Debug, Clone, Copy, PartialEq, Eq, Structural)]
pub enum SwapchainError {
    /// The surface supports no format or no present mode on the device.
    SurfaceNotSupported,
    /// The surface and the physical device belong to different instances.
    ParentMismatch,
    /// The surface supports no format at all.
    NoSuitableFormat,
    /// The chosen extent has a zero width or height.
    ZeroExtent,
    /// A queue family the swapchain needs was not found.
    Device(DeviceError),
}

impl SwapchainError {
    pub open spec fn message_spec(&self) -> Seq<char> {
        match self {
            SwapchainError::SurfaceNotSupported => "surface must be supported by the given device"@,
            SwapchainError::ParentMismatch => "surface and physical device parents must be the same"@,
            SwapchainError::NoSuitableFormat => "no suitable format found"@,
            SwapchainError::ZeroExtent => "imageExtent width and height must both be non-zero"@,
            SwapchainError::Device(e) => e.message_spec(),
        }
    }

    /// The message that describes this error.
    pub fn message(&self) -> (text: &'static str)
        ensures
            text@ == self.message_spec(),
    {
        proof {
            reveal_strlit("surface must be supported by the given device");
            reveal_strlit("surface and physical device parents must be the same");
            reveal_strlit("no suitable format found");
            reveal_strlit("imageExtent width and height must both be non-zero");
        }
        match self {
            SwapchainError::SurfaceNotSupported => "surface must be supported by the given device",
            SwapchainError::ParentMismatch => "surface and physical device parents must be the same",
            SwapchainError::NoSuitableFormat => "no suitable format found",
            SwapchainError::ZeroExtent => "imageExtent width and height must both be non-zero",
            SwapchainError::Device(e) => e.message(),
        }
    }
}

/// Whether `format` is exactly eight-bit sRGB in BGRA order in the sRGB
/// color space.
pub open spec fn is_srgb_bgra_format(format: SurfaceFormat) -> bool {
    format.format == format_b8g8r8a8_srgb_raw() && format.color_space
        == color_space_srgb_nonlinear_raw()
}

/// The image format of the renderer's swapchain: the first sRGB BGRA format
/// in the sRGB color space, else the first supported format.
pub open spec fn suitable_image_format_spec(formats: Seq<SurfaceFormat>) -> SurfaceFormat {
    if exists|i: int| 0 <= i < formats.len() && is_srgb_bgra_format(#[trigger] formats[i]) {
        let i = choose|i: int|
            0 <= i < formats.len() && is_srgb_bgra_format(#[trigger] formats[i]) && forall|j: int|
                0 <= j < i ==> !is_srgb_bgra_format(#[trigger] formats[j]);
        formats[i]
    } else {
        formats[0]
    }
}

/// Picks the image format of the renderer's swapchain among the (non-empty)
/// list of formats that the surface supports.
pub fn suitable_image_format(formats: &Vec<SurfaceFormat>) -> (format: SurfaceFormat)
    requires
        formats.len() > 0,
    ensures
        format == suitable_image_format_spec(formats@),
{
    let srgb = format_b8g8r8a8_srgb();
    let nonlinear = color_space_srgb_nonlinear();
    let mut i: usize = 0;
    while i < formats.len()
        invariant
            0 <= i <= formats.len(),
            srgb == format_b8g8r8a8_srgb_raw(),
            nonlinear == color_space_srgb_nonlinear_raw(),
            forall|j: int| 0 <= j < i ==> !is_srgb_bgra_format(#[trigger] formats@[j]),
        decreases formats.len() - i,
    {
        let f = formats[i];
        if f.format == srgb && f.color_space == nonlinear {
            proof {
                assert(is_srgb_bgra_format(formats@[i as int]));
                assert(exists|k: int|
                    0 <= k < formats@.len() && is_srgb_bgra_format(#[trigger] formats@[k])
                        && forall|j: int| 0 <= j < k ==> !is_srgb_bgra_format(#[trigger] formats@[j]));
                let k = choose|k: int|
                    0 <= k < formats@.len() && is_srgb_bgra_format(#[trigger] formats@[k])
                        && forall|j: int| 0 <= j < k ==> !is_srgb_bgra_format(#[trigger] formats@[j]);
                lemma_first_accepted_is_unique(formats@, |f: SurfaceFormat| is_srgb_bgra_format(f), i as int, k);
            }
            return f;
        }
        i = i + 1;
    }
    formats[0]
}

/// The renderer's swapchain dimensions: the surface's current extent when
/// it has one, else the window's size within the surface's limits.
pub open spec fn swapchain_dimensions_spec(
    current_extent: Option<Extent2D>,
    window: Extent2D,
    min_extent: Extent2D,
    max_extent: Extent2D,
) -> Extent2D {
    match current_extent {
        Some(extent) => extent,
        None => Extent2D {
            width: clamp_spec(window.width, min_extent.width, max_extent.width),
            height: clamp_spec(window.height, min_extent.height, max_extent.height),
        },
    }
}

/// Decides the dimensions of the renderer's swapchain.
pub fn swapchain_dimensions(
    current_extent: Option<Extent2D>,
    window: Extent2D,
    min_extent: Extent2D,
    max_extent: Extent2D,
) -> (dimensions: Extent2D)
    requires
        current_extent is None ==> min_extent.width <= max_extent.width && min_extent.height
            <= max_extent.height,
    ensures
        dimensions == swapchain_dimensions_spec(current_extent, window, min_extent, max_extent),
{
    match current_extent {
        Some(extent) => extent,
        None => Extent2D {
            width: clamp(window.width, min_extent.width, max_extent.width),
            height: clamp(window.height, min_extent.height, max_extent.height),
        },
    }
}

/// Number of images of the renderer's swapchain: one more than the
/// surface's minimum, raised to the surface's maximum where it has one.
pub open spec fn image_count_spec(min_image_count: u32, max_image_count: Option<u32>) -> int {
    let wanted = min_image_count + 1;
    match max_image_count {
        Some(max) => if wanted >= max {
            wanted
        } else {
            max as int
        },
        None => wanted,
    }
}

/// Computes the number of images of the renderer's swapchain.
pub fn image_count(min_image_count: u32, max_image_count: Option<u32>) -> (count: u32)
    requires
        min_image_count < u32::MAX,
    ensures
        count == image_count_spec(min_image_count, max_image_count),
{
    let wanted = min_image_count + 1;
    match max_image_count {
        Some(max) => if wanted >= max {
            wanted
        } else {
            max
        },
        None => wanted,
    }
}

/// Whether the renderer's swapchain images are shared at once by the
/// graphics family and the present family: whenever a present family was
/// found, even when it is the graphics family itself.
pub open spec fn shares_concurrently_spec(graphics: u32, present: Option<u32>) -> bool {
    present is Some
}

/// Decides whether the renderer's swapchain images are shared concurrently.
pub fn shares_concurrently(graphics: u32, present: Option<u32>) -> (concurrent: bool)
    ensures
        concurrent == shares_concurrently_spec(graphics, present),
{
    present.is_some()
}

/// Whether the images are shared at once by the graphics family and a
/// present family that differs from it, as the renderer built on frame
/// systems decides it.
pub open spec fn shares_across_families_spec(graphics: u32, present: Option<u32>) -> bool {
    match present {
        Some(p) => p != graphics,
        None => false,
    }
}

/// Decides whether the images are shared concurrently by two different
/// queue families.
pub fn shares_across_families(graphics: u32, present: Option<u32>) -> (concurrent: bool)
    ensures
        concurrent == shares_across_families_spec(graphics, present),
{
    match present {
        Some(p) => p != graphics,
        None => false,
    }
}

/// Settings of the renderer's swapchain.
#[derive(Debug, Clone, Copy, PartialEq, Eq, Structural)]
pub struct RendererSwapchainSettings {
    pub format: SurfaceFormat,
    pub present_mode: i32,
    pub dimensions: Extent2D,
    pub image_count: u32,
    /// Whether images are shared at once by the graphics and present families.
    pub concurrent: bool,
}

/// What the surface reports to the renderer, as its swapchain set-up reads it.
#[derive(Debug, Clone, PartialEq, Eq)]
pub struct RendererSurfaceSupport {
    pub formats: Vec<SurfaceFormat>,
    pub present_modes: Vec<i32>,
    /// The surface's current extent, if it has one.
    pub current_extent: Option<Extent2D>,
    pub min_image_extent: Extent2D,
    pub max_image_extent: Extent2D,
    pub min_image_count: u32,
    /// The surface's maximum number of images, if it has one.
    pub max_image_count: Option<u32>,
}

/// The settings of the renderer's swapchain for a window of size `window`,
/// with graphics on family `graphics` and presentation on `present`, where
/// a present family was found.
pub open spec fn renderer_swapchain_settings_spec(
    support: RendererSurfaceSupport,
    window: Extent2D,
    graphics: u32,
    present: Option<u32>,
) -> RendererSwapchainSettings {
    RendererSwapchainSettings {
        format: suitable_image_format_spec(support.formats@),
        present_mode: picked_present_mode(support.present_modes@),
        dimensions: swapchain_dimensions_spec(
            support.current_extent,
            window,
            support.min_image_extent,
            support.max_image_extent,
        ),
        image_count: image_count_spec(support.min_image_count, support.max_image_count) as u32,
        concurrent: shares_concurrently_spec(graphics, present),
    }
}

/// Decides the settings of the renderer's swapchain.
pub fn renderer_swapchain_settings(
    support: &RendererSurfaceSupport,
    window: Extent2D,
    graphics: u32,
    present: Option<u32>,
) -> (settings: RendererSwapchainSettings)
    requires
        support.formats.len() > 0,
        support.min_image_count < u32::MAX,
        support.current_extent is None ==> support.min_image_extent.width
            <= support.max_image_extent.width && support.min_image_extent.height
            <= support.max_image_extent.height,
    ensures
        settings == renderer_swapchain_settings_spec(*support, window, graphics, present),
{
    RendererSwapchainSettings {
        format: suitable_image_format(&support.formats),
        present_mode: pick_present_mode(&support.present_modes),
        dimensions: swapchain_dimensions(
            support.current_extent,
            window,
            support.min_image_extent,
            support.max_image_extent,
        ),
        image_count: image_count(support.min_image_count, support.max_image_count),
        concurrent: shares_concurrently(graphics, present),
    }
}

/// Settings of a new swapchain.
#[derive(Debug, Clone, Copy, PartialEq, Eq, Structural)]
pub struct SwapchainPlan {
    pub format: SurfaceFormat,
    pub present_mode: i32,
    pub extent: Extent2D,
    pub min_image_count: u32,
    pub sharing: SharingMode,
}

/// What a surface and a physical device report, as the swapchain's set-up
/// reads it.
#[derive(Debug, Clone, PartialEq, Eq)]
pub struct SwapchainSupport {
    /// Key of the instance the surface belongs to.
    pub surface_instance: u64,
    /// Key of the instance the physical device belongs to.
    pub physical_device_instance: u64,
    /// Formats the surface supports on the device.
    pub formats: Vec<SurfaceFormat>,
    /// Raw present modes the surface supports on the device.
    pub present_modes: Vec<i32>,
    pub capabilities: SurfaceCapabilities,
    /// Raw `VkQueueFlags` of each of the device's queue families.
    pub queue_families: Vec<u32>,
    /// Whether each queue family can present to the surface.
    pub present_support: Vec<bool>,
}

/// Whether deciding the settings from `support` reaches the choice of the
/// extent: the surface is suitable and belongs with the device.
pub open spec fn reaches_extent(support: SwapchainSupport) -> bool {
    &&& support.formats.len() > 0
    &&& support.present_modes.len() > 0
    &&& support.surface_instance == support.physical_device_instance
}

/// Whether `support` holds what deciding the settings from it relies on:
/// ordered extent limits where the extent is free, and a minimum image count
/// that can be raised by one, wherever those are reached.
pub open spec fn plan_well_defined(window: Extent2D, support: SwapchainSupport) -> bool {
    reaches_extent(support) ==> {
        &&& extent_is_free(support.capabilities) ==> extent_limits_ordered(support.capabilities)
        &&& {
            let extent = picked_extent(window, support.capabilities);
            extent.width != 0 && extent.height != 0 ==> support.capabilities.min_image_count
                < u32::MAX
        }
    }
}

/// The settings of a swapchain for a window of size `window`, or the first
/// check that fails, in the order the engine checks them.
pub open spec fn swapchain_plan_spec(window: Extent2D, support: SwapchainSupport) -> Result<
    SwapchainPlan,
    SwapchainError,
> {
    let extent = picked_extent(window, support.capabilities);
    if !(support.formats.len() > 0 && support.present_modes.len() > 0) {
        Err(SwapchainError::SurfaceNotSupported)
    } else if support.surface_instance != support.physical_device_instance {
        Err(SwapchainError::ParentMismatch)
    } else if picked_format(support.formats@) is None {
        Err(SwapchainError::NoSuitableFormat)
    } else if extent.height == 0 || extent.width == 0 {
        Err(SwapchainError::ZeroExtent)
    } else if graphics_family_spec(support.queue_families@) is Err {
        Err(SwapchainError::Device(graphics_family_spec(support.queue_families@)->Err_0))
    } else if present_family_spec(support.present_support@) is Err {
        Err(SwapchainError::Device(present_family_spec(support.present_support@)->Err_0))
    } else {
        Ok(
            SwapchainPlan {
                format: picked_format(support.formats@)->Some_0,
                present_mode: picked_present_mode(support.present_modes@),
                extent,
                min_image_count: min_image_count_spec(support.capabilities) as u32,
                sharing: sharing_mode_spec(
                    graphics_family_spec(support.queue_families@)->Ok_0,
                    present_family_spec(support.present_support@)->Ok_0,
                ),
            },
        )
    }
}

/// Decides the settings of a new swapchain for a window of size `window`
/// from what the surface and the physical device support.
pub fn plan_swapchain(window: Extent2D, support: &SwapchainSupport) -> (plan: Result<
    SwapchainPlan,
    SwapchainError,
>)
    requires
        plan_well_defined(window, *support),
    ensures
        plan == swapchain_plan_spec(window, *support),
{
    if !surface_is_suitable(&support.formats, &support.present_modes) {
        return Err(SwapchainError::SurfaceNotSupported);
    }
    if support.surface_instance != support.physical_device_instance {
        return Err(SwapchainError::ParentMismatch);
    }
    let format = match pick_format(&support.formats) {
        Some(format) => format,
        None => return Err(SwapchainError::NoSuitableFormat),
    };
    let present_mode = pick_present_mode(&support.present_modes);
    let extent = pick_extent(window, &support.capabilities);
    if extent.height == 0 || extent.width == 0 {
        return Err(SwapchainError::ZeroExtent);
    }
    let image_count = min_image_count(&support.capabilities);
    let graphics = match graphics_family_index(&support.queue_families) {
        Ok(index) => index,
        Err(e) => return Err(SwapchainError::Device(e)),
    };
    let present = match present_family_index(&support.present_support) {
        Ok(index) => index,
        Err(e) => return Err(SwapchainError::Device(e)),
    };
    Ok(
        SwapchainPlan {
            format,
            present_mode,
            extent,
            min_image_count: image_count,
            sharing: sharing_mode(graphics, present),
        },
    )
}

/// Clamping gives a value within the limits: the value itself when it lies
/// within them, else the limit it passed.
pub proof fn lemma_clamp_stays_within(value: u32, min: u32, max: u32)
    requires
        min <= max,
    ensures
        min <= clamp_spec(value, min, max) <= max,
        min <= value <= max ==> clamp_spec(value, min, max) == value,
        value < min ==> clamp_spec(value, min, max) == min,
        value > max ==> clamp_spec(value, min, max) == max,
{
}

/// The swapchain keeps the surface's extent when the surface has one;
/// otherwise each side is the window's, within the surface's limits, and
/// exactly the window's where it already fits.
pub proof fn lemma_extent_fits_surface(window: Extent2D, capabilities: SurfaceCapabilities)
    requires
        extent_is_free(capabilities) ==> extent_limits_ordered(capabilities),
    ensures
        !extent_is_free(capabilities) ==> picked_extent(window, capabilities)
            == capabilities.current_extent,
        extent_is_free(capabilities) ==> {
            let e = picked_extent(window, capabilities);
            &&& capabilities.min_image_extent.width <= e.width
                <= capabilities.max_image_extent.width
            &&& capabilities.min_image_extent.height <= e.height
                <= capabilities.max_image_extent.height
            &&& (capabilities.min_image_extent.width <= window.width
                <= capabilities.max_image_extent.width ==> e.width == window.width)
            &&& (capabilities.min_image_extent.height <= window.height
                <= capabilities.max_image_extent.height ==> e.height == window.height)
        },
{
}

/// The swapchain asks for one image more than the surface's minimum, and
/// never more than the surface's maximum where it has one.
pub proof fn lemma_min_image_count_within_limits(capabilities: SurfaceCapabilities)
    ensures
        min_image_count_spec(capabilities) <= capabilities.min_image_count + 1,
        capabilities.max_image_count == 0 ==> min_image_count_spec(capabilities)
            == capabilities.min_image_count + 1,
        capabilities.max_image_count > 0 ==> min_image_count_spec(capabilities)
            <= capabilities.max_image_count,
        capabilities.max_image_count > capabilities.min_image_count ==> min_image_count_spec(
            capabilities,
        ) == capabilities.min_image_count + 1,
{
}

/// The renderer's swapchain has at least one image more than the surface's
/// minimum and at least the surface's maximum where it has one, and it is
/// one of these two numbers.
pub proof fn lemma_image_count_is_largest(min_image_count: u32, max_image_count: Option<u32>)
    ensures
        image_count_spec(min_image_count, max_image_count) >= min_image_count + 1,
        max_image_count matches Some(max) ==> image_count_spec(min_image_count, max_image_count)
            >= max,
        image_count_spec(min_image_count, max_image_count) == min_image_count + 1 || (
        max_image_count matches Some(max) && image_count_spec(min_image_count, max_image_count)
            == max),
{
}

/// The renderer's swapchain dimensions are the surface's current extent
/// when it has one, else lie within the surface's limits and are the
/// window's where the window fits them.
pub proof fn lemma_dimensions_fit_surface(
    current_extent: Option<Extent2D>,
    window: Extent2D,
    min_extent: Extent2D,
    max_extent: Extent2D,
)
    requires
        min_extent.width <= max_extent.width,
        min_extent.height <= max_extent.height,
    ensures
        current_extent matches Some(e) ==> swapchain_dimensions_spec(
            current_extent,
            window,
            min_extent,
            max_extent,
        ) == e,
        current_extent is None ==> {
            let d = swapchain_dimensions_spec(current_extent, window, min_extent, max_extent);
            &&& min_extent.width <= d.width <= max_extent.width
            &&& min_extent.height <= d.height <= max_extent.height
            &&& (min_extent.width <= window.width <= max_extent.width ==> d.width == window.width)
            &&& (min_extent.height <= window.height <= max_extent.height ==> d.height
                == window.height)
        },
{
}

/// Images are owned by one family at a time exactly when graphics and
/// presentation share a family; otherwise both families share them.
pub proof fn lemma_sharing_follows_families(graphics: u32, present: u32)
    ensures
        sharing_mode_spec(graphics, present) == SharingMode::Exclusive <==> graphics == present,
        graphics != present ==> sharing_mode_spec(graphics, present) == (SharingMode::Concurrent {
            graphics,
            present,
        }),
{
}

/// The swapchain's format is one that the surface supports: a preferred one
/// (sRGB BGRA or sRGB color space) with none before it where there is one,
/// else the first; an empty list gives none.
pub proof fn lemma_picked_format_is_first_preferred(formats: Seq<SurfaceFormat>)
    ensures
        picked_format(formats) is None <==> formats.len() == 0,
        picked_format(formats) matches Some(f) ==> exists|i: int|
            0 <= i < formats.len() && formats[i] == f,
        (exists|i: int| 0 <= i < formats.len() && is_preferred_format(#[trigger] formats[i]))
            ==> exists|i: int|
            0 <= i < formats.len() && picked_format(formats) == Some(#[trigger] formats[i])
                && is_preferred_format(formats[i]) && forall|j: int|
                0 <= j < i ==> !is_preferred_format(#[trigger] formats[j]),
        (formats.len() > 0 && forall|i: int|
            0 <= i < formats.len() ==> !is_preferred_format(#[trigger] formats[i]))
            ==> picked_format(formats) == Some(formats[0]),
{
    if exists|i: int| 0 <= i < formats.len() && is_preferred_format(#[trigger] formats[i]) {
        lemma_first_accepted_exists(formats, |f: SurfaceFormat| is_preferred_format(f));
    }
}

/// The renderer's format is one that the surface supports: the first sRGB
/// BGRA one in the sRGB color space where there is one, else the first.
pub proof fn lemma_image_format_is_first_srgb(formats: Seq<SurfaceFormat>)
    requires
        formats.len() > 0,
    ensures
        exists|i: int| 0 <= i < formats.len() && formats[i] == suitable_image_format_spec(formats),
        (exists|i: int| 0 <= i < formats.len() && is_srgb_bgra_format(#[trigger] formats[i]))
            ==> is_srgb_bgra_format(suitable_image_format_spec(formats)),
        (forall|i: int| 0 <= i < formats.len() ==> !is_srgb_bgra_format(#[trigger] formats[i]))
            ==> suitable_image_format_spec(formats) == formats[0],
{
    if exists|i: int| 0 <= i < formats.len() && is_srgb_bgra_format(#[trigger] formats[i]) {
        lemma_first_accepted_exists(formats, |f: SurfaceFormat| is_srgb_bgra_format(f));
        let i = choose|i: int|
            0 <= i < formats.len() && is_srgb_bgra_format(#[trigger] formats[i]) && forall|j: int|
                0 <= j < i ==> !is_srgb_bgra_format(#[trigger] formats[j]);
        assert(formats[i] == suitable_image_format_spec(formats));
    } else {
        assert(formats[0] == suitable_image_format_spec(formats));
    }
}

/// Where some format meets `accepts`, a first such format exists.
proof fn lemma_first_accepted_exists(formats: Seq<SurfaceFormat>, accepts: spec_fn(SurfaceFormat) -> bool)
    requires
        exists|i: int| 0 <= i < formats.len() && accepts(#[trigger] formats[i]),
    ensures
        exists|i: int|
            0 <= i < formats.len() && accepts(#[trigger] formats[i]) && forall|j: int|
                0 <= j < i ==> !accepts(#[trigger] formats[j]),
    decreases formats.len(),
{
    let last = formats.len() - 1;
    if exists|i: int| 0 <= i < last && accepts(#[trigger] formats[i]) {
        let prefix = formats.drop_last();
        assert(exists|i: int| 0 <= i < prefix.len() && accepts(#[trigger] prefix[i])) by {
            let i = choose|i: int| 0 <= i < last && accepts(#[trigger] formats[i]);
            assert(prefix[i] == formats[i]);
        }
        lemma_first_accepted_exists(prefix, accepts);
        let k = choose|k: int|
            0 <= k < prefix.len() && accepts(#[trigger] prefix[k]) && forall|j: int|
                0 <= j < k ==> !accepts(#[trigger] prefix[j]);
        assert(formats[k] == prefix[k]);
        assert forall|j: int| 0 <= j < k implies !accepts(#[trigger] formats[j]) by {
            assert(formats[j] == prefix[j]);
        }
    } else {
        let i = choose|i: int| 0 <= i < formats.len() && accepts(#[trigger] formats[i]);
        assert(i == last);
        assert forall|j: int| 0 <= j < last implies !accepts(#[trigger] formats[j]) by {}
    }
}

} // verus!
