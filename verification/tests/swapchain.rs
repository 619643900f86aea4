use titan_core::device::DeviceError;
use titan_core::swapchain::{
    clamp, image_count, min_image_count, pick_extent, pick_format, pick_present_mode,
    plan_swapchain, renderer_swapchain_settings, shares_across_families, shares_concurrently, sharing_mode, suitable_image_format, surface_is_suitable,
    swapchain_dimensions, Extent2D, SharingMode, SurfaceCapabilities, SurfaceFormat,
    RendererSurfaceSupport, RendererSwapchainSettings, SwapchainError, SwapchainPlan,
    SwapchainSupport,
};

const SRGB: i32 = 50;
const UNORM: i32 = 44;
const NONLINEAR: i32 = 0;
const EXTENDED: i32 = 1_000_104_002;
const MAILBOX: i32 = 1;
const FIFO: i32 = 2;
const IMMEDIATE: i32 = 0;

fn fmt(format: i32, color_space: i32) -> SurfaceFormat {
    SurfaceFormat { format, color_space }
}

fn ext(width: u32, height: u32) -> Extent2D {
    Extent2D { width, height }
}

fn caps(current: Extent2D) -> SurfaceCapabilities {
    SurfaceCapabilities {
        min_image_count: 2,
        max_image_count: 8,
        current_extent: current,
        min_image_extent: ext(1, 1),
        max_image_extent: ext(4096, 4096),
    }
}

#[test]
fn pick_format_takes_first_preferred() {
    let formats = vec![fmt(UNORM, EXTENDED), fmt(UNORM, NONLINEAR), fmt(SRGB, EXTENDED)];
    assert_eq!(pick_format(&formats), Some(fmt(UNORM, NONLINEAR)));
    let formats = vec![fmt(SRGB, EXTENDED), fmt(UNORM, NONLINEAR)];
    assert_eq!(pick_format(&formats), Some(fmt(SRGB, EXTENDED)));
}

#[test]
fn pick_format_falls_back_to_first_or_none() {
    let formats = vec![fmt(UNORM, EXTENDED), fmt(7, EXTENDED)];
    assert_eq!(pick_format(&formats), Some(fmt(UNORM, EXTENDED)));
    assert_eq!(pick_format(&Vec::new()), None);
}

#[test]
fn present_mode_prefers_mailbox() {
    assert_eq!(pick_present_mode(&vec![FIFO, IMMEDIATE, MAILBOX]), MAILBOX);
    assert_eq!(pick_present_mode(&vec![IMMEDIATE, FIFO]), FIFO);
    assert_eq!(pick_present_mode(&vec![IMMEDIATE]), FIFO);
    assert_eq!(pick_present_mode(&Vec::new()), FIFO);
}

#[test]
fn extent_is_current_unless_free() {
    assert_eq!(pick_extent(ext(10, 10), &caps(ext(800, 600))), ext(800, 600));
    let free = caps(ext(u32::MAX, u32::MAX));
    assert_eq!(pick_extent(ext(800, 600), &free), ext(800, 600));
    assert_eq!(pick_extent(ext(0, 9000), &free), ext(1, 4096));
}

#[test]
fn clamp_brings_value_into_range() {
    assert_eq!(clamp(5, 1, 10), 5);
    assert_eq!(clamp(0, 1, 10), 1);
    assert_eq!(clamp(11, 1, 10), 10);
    assert_eq!(clamp(7, 7, 7), 7);
}

#[test]
fn min_image_count_is_one_more_capped_by_max() {
    assert_eq!(min_image_count(&caps(ext(1, 1))), 3);
    let mut c = caps(ext(1, 1));
    c.max_image_count = 2;
    assert_eq!(min_image_count(&c), 2);
    c.max_image_count = 0;
    c.min_image_count = 7;
    assert_eq!(min_image_count(&c), 8);
}

#[test]
fn renderer_image_count_is_raised_to_max() {
    assert_eq!(image_count(2, Some(8)), 8);
    assert_eq!(image_count(2, Some(2)), 3);
    assert_eq!(image_count(2, None), 3);
}

#[test]
fn renderer_format_needs_srgb_in_srgb_space() {
    let formats = vec![fmt(UNORM, NONLINEAR), fmt(SRGB, EXTENDED), fmt(SRGB, NONLINEAR)];
    assert_eq!(suitable_image_format(&formats), fmt(SRGB, NONLINEAR));
    let formats = vec![fmt(UNORM, NONLINEAR), fmt(SRGB, EXTENDED)];
    assert_eq!(suitable_image_format(&formats), fmt(UNORM, NONLINEAR));
}

#[test]
fn renderer_dimensions_follow_surface() {
    assert_eq!(swapchain_dimensions(Some(ext(5, 6)), ext(100, 100), ext(1, 1), ext(50, 50)), ext(5, 6));
    assert_eq!(swapchain_dimensions(None, ext(100, 0), ext(1, 1), ext(50, 50)), ext(50, 1));
}

#[test]
fn sharing_is_concurrent_across_families() {
    assert_eq!(sharing_mode(0, 1), SharingMode::Concurrent { graphics: 0, present: 1 });
    assert_eq!(sharing_mode(2, 2), SharingMode::Exclusive);
    assert!(shares_concurrently(0, Some(1)));
    assert!(shares_concurrently(3, Some(3)));
    assert!(!shares_concurrently(0, None));
    assert!(shares_across_families(0, Some(1)));
    assert!(!shares_across_families(0, Some(0)));
    assert!(!shares_across_families(0, None));
}

#[test]
fn surface_needs_formats_and_modes() {
    assert!(surface_is_suitable(&vec![fmt(SRGB, NONLINEAR)], &vec![FIFO]));
    assert!(!surface_is_suitable(&Vec::new(), &vec![FIFO]));
    assert!(!surface_is_suitable(&vec![fmt(SRGB, NONLINEAR)], &Vec::new()));
}

fn support() -> SwapchainSupport {
    SwapchainSupport {
        surface_instance: 1,
        physical_device_instance: 1,
        formats: vec![fmt(UNORM, EXTENDED), fmt(SRGB, NONLINEAR)],
        present_modes: vec![FIFO, MAILBOX],
        capabilities: caps(ext(800, 600)),
        queue_families: vec![0b100, 0b011, 0b001],
        present_support: vec![true, false, false],
    }
}

#[test]
fn plan_swapchain_decides_all_settings() {
    let plan = plan_swapchain(ext(1, 1), &support());
    assert_eq!(
        plan,
        Ok(SwapchainPlan {
            format: fmt(SRGB, NONLINEAR),
            present_mode: MAILBOX,
            extent: ext(800, 600),
            min_image_count: 3,
            sharing: SharingMode::Concurrent { graphics: 1, present: 0 },
        })
    );
    let mut same = support();
    same.present_support = vec![false, true, false];
    assert_eq!(plan_swapchain(ext(1, 1), &same).unwrap().sharing, SharingMode::Exclusive);
}

#[test]
fn plan_swapchain_reports_each_error_in_order() {
    let mut s = support();
    s.present_modes.clear();
    s.surface_instance = 2;
    assert_eq!(plan_swapchain(ext(1, 1), &s), Err(SwapchainError::SurfaceNotSupported));

    let mut s = support();
    s.surface_instance = 2;
    assert_eq!(plan_swapchain(ext(1, 1), &s), Err(SwapchainError::ParentMismatch));

    let mut s = support();
    s.capabilities.current_extent = ext(0, 600);
    assert_eq!(plan_swapchain(ext(1, 1), &s), Err(SwapchainError::ZeroExtent));

    let mut s = support();
    s.queue_families = vec![0b100];
    assert_eq!(
        plan_swapchain(ext(1, 1), &s),
        Err(SwapchainError::Device(DeviceError::NoGraphicsQueue))
    );

    let mut s = support();
    s.present_support = vec![false, false, false];
    assert_eq!(
        plan_swapchain(ext(1, 1), &s),
        Err(SwapchainError::Device(DeviceError::NoPresentQueue))
    );
}

#[test]
fn swapchain_error_messages() {
    assert_eq!(SwapchainError::SurfaceNotSupported.message(), "surface must be supported by the given device");
    assert_eq!(SwapchainError::ParentMismatch.message(), "surface and physical device parents must be the same");
    assert_eq!(SwapchainError::NoSuitableFormat.message(), "no suitable format found");
    assert_eq!(SwapchainError::ZeroExtent.message(), "imageExtent width and height must both be non-zero");
    assert_eq!(
        SwapchainError::Device(DeviceError::NoGraphicsQueue).message(),
        "no queues with graphics support"
    );
}

#[test]
fn renderer_swapchain_settings_combine_choices() {

    let support = RendererSurfaceSupport {
        formats: vec![fmt(UNORM, NONLINEAR), fmt(SRGB, NONLINEAR)],
        present_modes: vec![IMMEDIATE, FIFO],
        current_extent: None,
        min_image_extent: ext(16, 16),
        max_image_extent: ext(1024, 1024),
        min_image_count: 1,
        max_image_count: Some(3),
    };
    assert_eq!(
        renderer_swapchain_settings(&support, ext(2000, 8), 0, Some(1)),
        RendererSwapchainSettings {
            format: fmt(SRGB, NONLINEAR),
            present_mode: FIFO,
            dimensions: ext(1024, 16),
            image_count: 3,
            concurrent: true,
        }
    );
}
