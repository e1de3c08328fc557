//! The one descriptor the fragment shader reads: a combined image sampler at
//! set 0, binding 0.

use vstd::prelude::*;
use crate::vk_types::{
    VkDescriptorImageInfo, VkDescriptorPoolSize, VkDescriptorSetLayoutBinding, VkImageView, VkSampler,
    VK_DESCRIPTOR_TYPE_COMBINED_IMAGE_SAMPLER, VK_IMAGE_LAYOUT_SHADER_READ_ONLY_OPTIMAL,
    VK_SHADER_STAGE_FRAGMENT_BIT,
};

verus! {

/// Binding 0: one combined image sampler, seen by the fragment stage.
pub fn texture_binding() -> (binding: VkDescriptorSetLayoutBinding)
    ensures
        binding == (VkDescriptorSetLayoutBinding {
            binding: 0,
            descriptor_type: VK_DESCRIPTOR_TYPE_COMBINED_IMAGE_SAMPLER,
            descriptor_count: 1,
            stage_flags: VK_SHADER_STAGE_FRAGMENT_BIT,
        }),
{
    VkDescriptorSetLayoutBinding {
        binding: 0,
        descriptor_type: VK_DESCRIPTOR_TYPE_COMBINED_IMAGE_SAMPLER,
        descriptor_count: 1,
        stage_flags: VK_SHADER_STAGE_FRAGMENT_BIT,
    }
}

/// A pool for `capacity` sets of that one binding; the pool's `max_sets` is
/// the same `capacity`.
pub fn pool_size(capacity: u32) -> (size: VkDescriptorPoolSize)
    ensures
        size == (VkDescriptorPoolSize {
            descriptor_type: VK_DESCRIPTOR_TYPE_COMBINED_IMAGE_SAMPLER,
            descriptor_count: capacity,
        }),
{
    VkDescriptorPoolSize { descriptor_type: VK_DESCRIPTOR_TYPE_COMBINED_IMAGE_SAMPLER, descriptor_count: capacity }
}

/// What a set is written with: the texture's view and sampler, the image
/// being in the layout the shader reads it in.
pub fn texture_image_info(view: VkImageView, sampler: VkSampler) -> (info: VkDescriptorImageInfo)
    ensures
        info == (VkDescriptorImageInfo {
            sampler,
            image_view: view,
            image_layout: VK_IMAGE_LAYOUT_SHADER_READ_ONLY_OPTIMAL,
        }),
{
    VkDescriptorImageInfo { sampler, image_view: view, image_layout: VK_IMAGE_LAYOUT_SHADER_READ_ONLY_OPTIMAL }
}

} // verus!
