//! The swapchain: the ring of images shown in the window in turn, and the
//! choices of format, present mode, size and image count it is created with.
//! The choices take no Vulkan call; the caller queries the surface and creates
//! the swapchain.

use vstd::prelude::*;
use crate::vk_types::{
    VkEnum, VkExtent2D, VkImage, VkImageView, VkSurfaceCapabilitiesKHR, VkSurfaceFormatKHR,
    VkSwapchainKHR, VK_COLOR_SPACE_SRGB_NONLINEAR_KHR, VK_FORMAT_B8G8R8A8_UNORM,
    VK_PRESENT_MODE_FIFO_KHR, VK_SUBOPTIMAL_KHR, VK_SUCCESS,
};

verus! {

/// The swapchain and the views through which its images are attached to the
/// render pass.
pub struct Swapchain {
    pub handle: VkSwapchainKHR,
    pub images: Vec<VkImage>,
    pub image_views: Vec<VkImageView>,
    pub format: VkEnum,
    pub extent: VkExtent2D,
}

/// The pair supported practically everywhere: `B8G8R8A8_UNORM` in
/// `SRGB_NONLINEAR`.
pub open spec fn is_preferred_surface_format(f: VkSurfaceFormatKHR) -> bool {
    f.format == VK_FORMAT_B8G8R8A8_UNORM && f.color_space == VK_COLOR_SPACE_SRGB_NONLINEAR_KHR
}

/// The preferred pair when the surface offers it whole; otherwise the first
/// format offered, rather than guessing at a pair the driver lacks. A valid
/// surface always offers at least one format.
pub fn choose_surface_format(available: &[VkSurfaceFormatKHR]) -> (chosen: VkSurfaceFormatKHR)
    requires
        available@.len() > 0,
    ensures
        (exists|i: int| 0 <= i < available@.len() && is_preferred_surface_format(available@[i]))
            ==> chosen == (VkSurfaceFormatKHR {
            format: VK_FORMAT_B8G8R8A8_UNORM,
            color_space: VK_COLOR_SPACE_SRGB_NONLINEAR_KHR,
        }),
        !(exists|i: int| 0 <= i < available@.len() && is_preferred_surface_format(available@[i]))
            ==> chosen == available@[0],
{
    let mut i: usize = 0;
    while i < available.len()
        invariant
            i <= available@.len(),
            forall|j: int| 0 <= j < i ==> !is_preferred_surface_format(available@[j]),
        decreases available@.len() - i,
    {
        let f = available[i];
        if f.format == VK_FORMAT_B8G8R8A8_UNORM && f.color_space == VK_COLOR_SPACE_SRGB_NONLINEAR_KHR {
            return f;
        }
        i = i + 1;
    }
    available[0]
}

/// `FIFO`, the one present mode the specification guarantees (vertical
/// synchronisation), whatever else is offered.
pub fn choose_present_mode(available: &[VkEnum]) -> (mode: VkEnum)
    ensures
        mode == VK_PRESENT_MODE_FIFO_KHR,
{
    VK_PRESENT_MODE_FIFO_KHR
}

/// `value` held within `[min, max]`.
pub open spec fn spec_clamp(value: u32, min: u32, max: u32) -> u32 {
    if value < min {
        min
    } else if value > max {
        max
    } else {
        value
    }
}

/// `u32::clamp`: the bounds must be in order.
fn clamp(value: u32, min: u32, max: u32) -> (r: u32)
    requires
        min <= max,
    ensures
        r == spec_clamp(value, min, max),
{
    if value < min {
        min
    } else if value > max {
        max
    } else {
        value
    }
}

/// A current width of `u32::MAX` means "the size is yours to choose": the
/// window's size within the surface's limits. Any other current extent is
/// dictated by the surface and must be used as it is.
pub fn choose_extent(
    capabilities: &VkSurfaceCapabilitiesKHR,
    window_width: u32,
    window_height: u32,
) -> (extent: VkExtent2D)
    requires
        capabilities.current_extent.width == u32::MAX ==> {
            &&& capabilities.min_image_extent.width <= capabilities.max_image_extent.width
            &&& capabilities.min_image_extent.height <= capabilities.max_image_extent.height
        },
    ensures
        capabilities.current_extent.width != u32::MAX ==> extent == capabilities.current_extent,
        capabilities.current_extent.width == u32::MAX ==> extent == (VkExtent2D {
            width: spec_clamp(
                window_width,
                capabilities.min_image_extent.width,
                capabilities.max_image_extent.width,
            ),
            height: spec_clamp(
                window_height,
                capabilities.min_image_extent.height,
                capabilities.max_image_extent.height,
            ),
        }),
{
    if capabilities.current_extent.width != u32::MAX {
        return capabilities.current_extent;
    }
    VkExtent2D {
        width: clamp(window_width, capabilities.min_image_extent.width, capabilities.max_image_extent.width),
        height: clamp(
            window_height,
            capabilities.min_image_extent.height,
            capabilities.max_image_extent.height,
        ),
    }
}

/// One more than the minimum, capped by a nonzero maximum.
pub open spec fn spec_image_count(capabilities: VkSurfaceCapabilitiesKHR) -> int {
    let preferred = capabilities.min_image_count + 1;
    if capabilities.max_image_count > 0 && capabilities.max_image_count < preferred {
        capabilities.max_image_count as int
    } else {
        preferred
    }
}

/// One image more than the minimum, so that the driver rarely makes a frame
/// wait for an image to come free; capped by the maximum, where a maximum of
/// zero means "no limit", not "no images".
pub fn choose_image_count(capabilities: &VkSurfaceCapabilitiesKHR) -> (count: u32)
    requires
        capabilities.min_image_count < u32::MAX,
    ensures
        count == spec_image_count(*capabilities),
{
    let preferred = capabilities.min_image_count + 1;
    if capabilities.max_image_count > 0 {
        preferred.min(capabilities.max_image_count)
    } else {
        preferred
    }
}

/// A size the swapchain chooses itself stays within the surface's limits on
/// both sides, however far outside them the window is.
pub proof fn law_free_extent_within_limits(capabilities: VkSurfaceCapabilitiesKHR, window_width: u32, window_height: u32)
    requires
        capabilities.min_image_extent.width <= capabilities.max_image_extent.width,
        capabilities.min_image_extent.height <= capabilities.max_image_extent.height,
    ensures
        capabilities.min_image_extent.width <= spec_clamp(
            window_width,
            capabilities.min_image_extent.width,
            capabilities.max_image_extent.width,
        ) <= capabilities.max_image_extent.width,
        capabilities.min_image_extent.height <= spec_clamp(
            window_height,
            capabilities.min_image_extent.height,
            capabilities.max_image_extent.height,
        ) <= capabilities.max_image_extent.height,
        capabilities.min_image_extent.width <= window_width <= capabilities.max_image_extent.width
            ==> spec_clamp(
            window_width,
            capabilities.min_image_extent.width,
            capabilities.max_image_extent.width,
        ) == window_width,
{
}

/// The image count asked for never exceeds a maximum the surface sets, and
/// never falls below its minimum when the two are consistent.
pub proof fn law_image_count_within_limits(capabilities: VkSurfaceCapabilitiesKHR)
    requires
        capabilities.min_image_count < u32::MAX,
    ensures
        capabilities.max_image_count > 0 ==> spec_image_count(capabilities) <= capabilities.max_image_count,
        capabilities.max_image_count == 0 || capabilities.min_image_count <= capabilities.max_image_count
            ==> capabilities.min_image_count <= spec_image_count(capabilities),
{
}

/// Whether the frame goes on after acquiring or presenting an image:
/// success, or a swapchain that still works but no longer matches the
/// surface exactly. Anything else, an out-of-date swapchain included, ends
/// the frame with an error.
pub fn frame_result_usable(result: VkEnum) -> (usable: bool)
    ensures
        usable <==> result == VK_SUCCESS || result == VK_SUBOPTIMAL_KHR,
{
    result == VK_SUCCESS || result == VK_SUBOPTIMAL_KHR
}

} // verus!
