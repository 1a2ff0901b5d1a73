use ash::vk;
use pong_rust::swapchain::{
    choose_image_count, choose_sharing_mode, choose_swapchain_extent, choose_swapchain_format,
    choose_swapchain_present_mode, plan_swapchain, Extent2D, SharingMode, SurfaceCapabilities,
    SurfaceFormat, SwapChainSupportDetail, COLOR_SPACE_SRGB_NONLINEAR, EXTENT_ANY,
    FORMAT_B8G8R8A8_SRGB, PRESENT_MODE_FIFO, PRESENT_MODE_MAILBOX,
};
use pong_rust::device::QueueFamilyIndices;

fn caps(current: Extent2D, min: Extent2D, max: Extent2D, min_count: u32, max_count: u32) -> SurfaceCapabilities {
    SurfaceCapabilities {
        current_extent: current,
        min_image_extent: min,
        max_image_extent: max,
        min_image_count: min_count,
        max_image_count: max_count,
    }
}

fn ext(width: u32, height: u32) -> Extent2D {
    Extent2D { width, height }
}

#[test]
fn raw_codes_match_the_api() {
    assert_eq!(FORMAT_B8G8R8A8_SRGB, vk::Format::B8G8R8A8_SRGB.as_raw());
    assert_eq!(COLOR_SPACE_SRGB_NONLINEAR, vk::ColorSpaceKHR::SRGB_NONLINEAR.as_raw());
    assert_eq!(PRESENT_MODE_MAILBOX, vk::PresentModeKHR::MAILBOX.as_raw());
    assert_eq!(PRESENT_MODE_FIFO, vk::PresentModeKHR::FIFO.as_raw());
    assert_eq!(EXTENT_ANY, u32::MAX);
}

#[test]
fn format_prefers_srgb_pair_anywhere_in_list() {
    let formats = vec![
        SurfaceFormat { format: vk::Format::R8G8B8A8_UNORM.as_raw(), color_space: 0 },
        SurfaceFormat { format: FORMAT_B8G8R8A8_SRGB, color_space: 1 },
        SurfaceFormat { format: FORMAT_B8G8R8A8_SRGB, color_space: COLOR_SPACE_SRGB_NONLINEAR },
    ];
    let r = choose_swapchain_format(&formats);
    assert_eq!(r, SurfaceFormat { format: FORMAT_B8G8R8A8_SRGB, color_space: COLOR_SPACE_SRGB_NONLINEAR });
}

#[test]
fn format_falls_back_to_first() {
    let formats = vec![
        SurfaceFormat { format: 44, color_space: 0 },
        SurfaceFormat { format: FORMAT_B8G8R8A8_SRGB, color_space: 1000104002 },
    ];
    assert_eq!(choose_swapchain_format(&formats), SurfaceFormat { format: 44, color_space: 0 });
}

#[test]
fn present_mode_prefers_mailbox() {
    assert_eq!(choose_swapchain_present_mode(&vec![0, 2, 1, 3]), PRESENT_MODE_MAILBOX);
}

#[test]
fn present_mode_falls_back_to_fifo() {
    assert_eq!(choose_swapchain_present_mode(&vec![0, 3]), PRESENT_MODE_FIFO);
    assert_eq!(choose_swapchain_present_mode(&vec![]), PRESENT_MODE_FIFO);
}

#[test]
fn extent_uses_current_when_not_any() {
    let c = caps(ext(1024, 768), ext(1, 1), ext(4096, 4096), 2, 8);
    assert_eq!(choose_swapchain_extent(&c, ext(800, 600)), ext(1024, 768));
}

#[test]
fn extent_clamps_window_size_when_any() {
    let c = caps(ext(EXTENT_ANY, EXTENT_ANY), ext(100, 650), ext(700, 2000), 2, 8);
    assert_eq!(choose_swapchain_extent(&c, ext(800, 600)), ext(700, 650));
    assert_eq!(choose_swapchain_extent(&c, ext(50, 3000)), ext(100, 2000));
    assert_eq!(choose_swapchain_extent(&c, ext(400, 1000)), ext(400, 1000));
}

#[test]
fn image_count_one_above_minimum() {
    assert_eq!(choose_image_count(&caps(ext(1, 1), ext(1, 1), ext(1, 1), 2, 0)), 3);
    assert_eq!(choose_image_count(&caps(ext(1, 1), ext(1, 1), ext(1, 1), 2, 8)), 3);
}

#[test]
fn image_count_clamped_to_nonzero_maximum() {
    assert_eq!(choose_image_count(&caps(ext(1, 1), ext(1, 1), ext(1, 1), 3, 3)), 3);
}

#[test]
fn sharing_depends_on_distinct_families() {
    let same = QueueFamilyIndices { graphics_family: Some(0), present_family: Some(0) };
    assert_eq!(choose_sharing_mode(&same), SharingMode::Exclusive);
    let distinct = QueueFamilyIndices { graphics_family: Some(0), present_family: Some(2) };
    assert_eq!(
        choose_sharing_mode(&distinct),
        SharingMode::Concurrent { graphics_family: 0, present_family: 2 }
    );
}

#[test]
fn plan_combines_all_choices() {
    let support = SwapChainSupportDetail {
        capabilities: caps(ext(EXTENT_ANY, EXTENT_ANY), ext(1, 1), ext(640, 480), 2, 0),
        formats: vec![SurfaceFormat { format: 37, color_space: 0 }],
        present_modes: vec![PRESENT_MODE_FIFO],
    };
    let qf = QueueFamilyIndices { graphics_family: Some(1), present_family: Some(1) };
    let plan = plan_swapchain(&support, ext(800, 600), &qf);
    assert_eq!(plan.surface_format, SurfaceFormat { format: 37, color_space: 0 });
    assert_eq!(plan.present_mode, PRESENT_MODE_FIFO);
    assert_eq!(plan.extent, ext(640, 480));
    assert_eq!(plan.image_count, 3);
    assert_eq!(plan.sharing, SharingMode::Exclusive);
}
