use xd_engine::sync::FrameSync;
use xd_engine::vk_types::{VkFence, VkSemaphore};

#[test]
fn each_swapchain_image_has_its_own_render_finished_semaphore() {
    let per_image = vec![VkSemaphore(11), VkSemaphore(12), VkSemaphore(13)];
    let sync = FrameSync::new(VkSemaphore(1), per_image.clone(), VkFence(2), 3);
    assert_eq!(sync.image_count(), 3);
    assert_eq!(sync.render_finished(0), VkSemaphore(11));
    assert_eq!(sync.render_finished(2), VkSemaphore(13));
    assert_eq!(sync.render_finished_semaphores(), per_image.as_slice());
    assert_eq!((sync.image_available(), sync.in_flight()), (VkSemaphore(1), VkFence(2)));
}
