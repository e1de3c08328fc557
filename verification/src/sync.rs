//! The synchronisation of the single frame in flight.

use vstd::prelude::*;
use crate::vk_types::{VkFence, VkSemaphore};

verus! {

/// `image_available` is signalled when the acquired image can be drawn to,
/// and `in_flight` when the frame's commands have completed; the fence is
/// created signalled, so the first frame does not wait for a frame that never
/// ran. `render_finished` holds one semaphore per swapchain image, signalled
/// when drawing into that image is done and it can be presented: a single
/// shared one could still be waited on by the presentation of one image when
/// the next frame signals it again for another.
pub struct FrameSync {
    image_available: VkSemaphore,
    render_finished: Vec<VkSemaphore>,
    in_flight: VkFence,
}

impl FrameSync {
    pub closed spec fn spec_image_available(&self) -> VkSemaphore {
        self.image_available
    }

    pub closed spec fn spec_in_flight(&self) -> VkFence {
        self.in_flight
    }

    /// The render-finished semaphores, the one of swapchain image `i` at `i`.
    pub closed spec fn spec_render_finished(&self) -> Seq<VkSemaphore> {
        self.render_finished@
    }

    /// Gathers the frame's objects: `render_finished` has one semaphore for
    /// each of the swapchain's `image_count` images.
    pub fn new(
        image_available: VkSemaphore,
        render_finished: Vec<VkSemaphore>,
        in_flight: VkFence,
        image_count: usize,
    ) -> (sync: Self)
        requires
            render_finished@.len() == image_count,
        ensures
            sync.spec_image_available() == image_available,
            sync.spec_render_finished() == render_finished@,
            sync.spec_render_finished().len() == image_count,
            sync.spec_in_flight() == in_flight,
    {
        FrameSync { image_available, render_finished, in_flight }
    }

    /// The semaphore the acquire signals and drawing waits on.
    pub fn image_available(&self) -> (semaphore: VkSemaphore)
        ensures
            semaphore == self.spec_image_available(),
    {
        self.image_available
    }

    /// The fence the frame's submission signals.
    pub fn in_flight(&self) -> (fence: VkFence)
        ensures
            fence == self.spec_in_flight(),
    {
        self.in_flight
    }

    /// The number of swapchain images the semaphores were made for.
    pub fn image_count(&self) -> (count: usize)
        ensures
            count == self.spec_render_finished().len(),
    {
        self.render_finished.len()
    }

    /// The semaphore that drawing into image `image_index` signals and its
    /// presentation waits on.
    pub fn render_finished(&self, image_index: u32) -> (semaphore: VkSemaphore)
        requires
            image_index < self.spec_render_finished().len(),
        ensures
            semaphore == self.spec_render_finished()[image_index as int],
    {
        self.render_finished[image_index as usize]
    }

    /// All the render-finished semaphores, in image order.
    pub fn render_finished_semaphores(&self) -> (semaphores: &[VkSemaphore])
        ensures
            semaphores@ == self.spec_render_finished(),
    {
        self.render_finished.as_slice()
    }
}

} // verus!
