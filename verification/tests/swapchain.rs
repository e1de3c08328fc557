use xd_engine::swapchain::{
    choose_extent, choose_image_count, choose_present_mode, choose_surface_format, frame_result_usable,
};
use xd_engine::vk_types::{
    VkExtent2D, VkSurfaceCapabilitiesKHR, VkSurfaceFormatKHR, VK_COLOR_SPACE_SRGB_NONLINEAR_KHR,
    VK_ERROR_OUT_OF_DATE_KHR, VK_FORMAT_B8G8R8A8_UNORM, VK_FORMAT_UNDEFINED, VK_PRESENT_MODE_FIFO_KHR,
    VK_SUBOPTIMAL_KHR, VK_SUCCESS,
};

#[test]
fn prefers_bgra8_srgb_nonlinear_when_available() {
    let formats = [
        VkSurfaceFormatKHR { format: VK_FORMAT_UNDEFINED, color_space: 5 },
        VkSurfaceFormatKHR { format: VK_FORMAT_B8G8R8A8_UNORM, color_space: VK_COLOR_SPACE_SRGB_NONLINEAR_KHR },
    ];
    let chosen = choose_surface_format(&formats);
    assert_eq!(chosen.format, VK_FORMAT_B8G8R8A8_UNORM);
    assert_eq!(chosen.color_space, VK_COLOR_SPACE_SRGB_NONLINEAR_KHR);
}

#[test]
fn falls_back_to_the_first_format_when_the_preferred_pair_is_missing() {
    let formats = [VkSurfaceFormatKHR { format: 123, color_space: 7 }];
    let chosen = choose_surface_format(&formats);
    assert_eq!((chosen.format, chosen.color_space), (123, 7));
}

#[test]
fn the_pair_is_not_assembled_from_parts() {
    // The format is there, the colour space only with another format.
    let formats = [
        VkSurfaceFormatKHR { format: 50, color_space: VK_COLOR_SPACE_SRGB_NONLINEAR_KHR },
        VkSurfaceFormatKHR { format: VK_FORMAT_B8G8R8A8_UNORM, color_space: 3 },
    ];
    let chosen = choose_surface_format(&formats);
    assert_eq!((chosen.format, chosen.color_space), (50, VK_COLOR_SPACE_SRGB_NONLINEAR_KHR));
}

#[test]
fn present_mode_is_always_fifo_regardless_of_what_is_offered() {
    assert_eq!(choose_present_mode(&[]), VK_PRESENT_MODE_FIFO_KHR);
    assert_eq!(choose_present_mode(&[0, 1, 2, 3]), VK_PRESENT_MODE_FIFO_KHR);
}

#[test]
fn extent_follows_the_surface_when_it_dictates_a_fixed_size() {
    let caps = VkSurfaceCapabilitiesKHR {
        current_extent: VkExtent2D { width: 800, height: 600 },
        ..Default::default()
    };
    let extent = choose_extent(&caps, 1920, 1080);
    assert_eq!((extent.width, extent.height), (800, 600));
}

#[test]
fn extent_falls_back_to_the_window_size_clamped_to_the_range() {
    let caps = VkSurfaceCapabilitiesKHR {
        current_extent: VkExtent2D { width: u32::MAX, height: u32::MAX },
        min_image_extent: VkExtent2D { width: 100, height: 100 },
        max_image_extent: VkExtent2D { width: 4096, height: 4096 },
        ..Default::default()
    };
    // Narrower than the minimum, taller than the maximum: both ends clamp.
    let extent = choose_extent(&caps, 50, 8000);
    assert_eq!((extent.width, extent.height), (100, 4096));
}

#[test]
fn a_window_within_the_range_keeps_its_size() {
    let caps = VkSurfaceCapabilitiesKHR {
        current_extent: VkExtent2D { width: u32::MAX, height: u32::MAX },
        min_image_extent: VkExtent2D { width: 1, height: 1 },
        max_image_extent: VkExtent2D { width: 4096, height: 4096 },
        ..Default::default()
    };
    let extent = choose_extent(&caps, 640, 480);
    assert_eq!((extent.width, extent.height), (640, 480));
}

#[test]
fn image_count_asks_for_one_more_than_minimum() {
    let caps = VkSurfaceCapabilitiesKHR { min_image_count: 2, max_image_count: 8, ..Default::default() };
    assert_eq!(choose_image_count(&caps), 3);
}

#[test]
fn image_count_is_clamped_to_the_maximum() {
    let caps = VkSurfaceCapabilitiesKHR { min_image_count: 3, max_image_count: 3, ..Default::default() };
    assert_eq!(choose_image_count(&caps), 3);
}

#[test]
fn image_count_has_no_ceiling_when_the_driver_does_not_set_one() {
    let caps = VkSurfaceCapabilitiesKHR { min_image_count: 3, max_image_count: 0, ..Default::default() };
    assert_eq!(choose_image_count(&caps), 4);
}

#[test]
fn only_success_and_suboptimal_let_the_frame_go_on() {
    assert!(frame_result_usable(VK_SUCCESS));
    assert!(frame_result_usable(VK_SUBOPTIMAL_KHR));
    assert!(!frame_result_usable(VK_ERROR_OUT_OF_DATE_KHR));
    assert!(!frame_result_usable(1));
}
