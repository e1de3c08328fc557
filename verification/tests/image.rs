use xd_engine::image::{
    supports_transition, layout_transition_masks, level_zero_copy_region, mip_level_count, texture_view_range, upload_steps,
    GpuImage, UploadStep,
};
use xd_engine::image::{texture_image_description, TEXTURE_MEMORY_PROPERTIES};
use xd_engine::sampler::VK_FILTER_LINEAR;
use xd_engine::vk_types::{
    VkDeviceMemory, VkImage, VkImageView, VK_ACCESS_SHADER_READ_BIT, VK_ACCESS_TRANSFER_READ_BIT,
    VK_ACCESS_TRANSFER_WRITE_BIT, VK_IMAGE_LAYOUT_SHADER_READ_ONLY_OPTIMAL,
    VK_IMAGE_LAYOUT_TRANSFER_DST_OPTIMAL, VK_IMAGE_LAYOUT_TRANSFER_SRC_OPTIMAL, VK_IMAGE_LAYOUT_UNDEFINED,
    VK_PIPELINE_STAGE_FRAGMENT_SHADER_BIT, VK_PIPELINE_STAGE_TOP_OF_PIPE_BIT, VK_PIPELINE_STAGE_TRANSFER_BIT,
};

#[test]
fn a_square_texture_halves_down_to_a_single_texel() {
    // 64 → 32 → 16 → 8 → 4 → 2 → 1: seven levels with level zero
    assert_eq!(mip_level_count(64, 64), 7);
    assert_eq!(mip_level_count(1, 1), 1);
    assert_eq!(mip_level_count(2, 2), 2);
}

#[test]
fn the_count_follows_the_longer_side() {
    assert_eq!(mip_level_count(64, 8), 7);
    assert_eq!(mip_level_count(8, 64), 7);
}

#[test]
fn a_non_power_of_two_side_rounds_down() {
    // 100 → 50 → 25 → 12 → 6 → 3 → 1: seven levels, like 64
    assert_eq!(mip_level_count(100, 100), 7);
    assert_eq!(mip_level_count(128, 128), 8);
}

#[test]
fn an_empty_image_still_has_one_level_and_the_largest_has_thirty_two() {
    assert_eq!(mip_level_count(0, 0), 1);
    assert_eq!(mip_level_count(u32::MAX, 1), 32);
}

fn transition(old_layout: i32, new_layout: i32, base_mip_level: u32, level_count: u32) -> UploadStep {
    UploadStep::Transition { old_layout, new_layout, base_mip_level, level_count }
}

#[test]
fn a_single_level_upload_copies_and_hands_over() {
    let steps = upload_steps(8, 4, 1);
    assert_eq!(
        steps,
        vec![
            transition(VK_IMAGE_LAYOUT_UNDEFINED, VK_IMAGE_LAYOUT_TRANSFER_DST_OPTIMAL, 0, 1),
            UploadStep::CopyLevelZero { width: 8, height: 4 },
            transition(VK_IMAGE_LAYOUT_TRANSFER_DST_OPTIMAL, VK_IMAGE_LAYOUT_SHADER_READ_ONLY_OPTIMAL, 0, 1),
        ]
    );
    // Zero levels means one.
    assert_eq!(upload_steps(8, 4, 0), steps);
}

#[test]
fn the_pyramid_is_built_level_from_level() {
    // 64x8: the short side stops at one texel, the long one goes on.
    let levels = mip_level_count(64, 8);
    let steps = upload_steps(64, 8, levels);
    assert_eq!(steps.len(), 3 * levels as usize);
    let blits: Vec<(u32, i32, i32, u32, i32, i32)> = steps
        .iter()
        .filter_map(|s| match *s {
            UploadStep::Blit { src_level, src_width, src_height, dst_level, dst_width, dst_height, filter } => {
                assert_eq!(filter, VK_FILTER_LINEAR);
                Some((src_level, src_width, src_height, dst_level, dst_width, dst_height))
            }
            _ => None,
        })
        .collect();
    assert_eq!(
        blits,
        vec![
            (0, 64, 8, 1, 32, 4),
            (1, 32, 4, 2, 16, 2),
            (2, 16, 2, 3, 8, 1),
            (3, 8, 1, 4, 4, 1),
            (4, 4, 1, 5, 2, 1),
            (5, 2, 1, 6, 1, 1),
        ]
    );
    assert_eq!(steps[0], transition(VK_IMAGE_LAYOUT_UNDEFINED, VK_IMAGE_LAYOUT_TRANSFER_DST_OPTIMAL, 0, 7));
    assert_eq!(steps[2], transition(VK_IMAGE_LAYOUT_TRANSFER_DST_OPTIMAL, VK_IMAGE_LAYOUT_TRANSFER_SRC_OPTIMAL, 0, 1));
    assert_eq!(steps[4], transition(VK_IMAGE_LAYOUT_TRANSFER_SRC_OPTIMAL, VK_IMAGE_LAYOUT_SHADER_READ_ONLY_OPTIMAL, 0, 1));
    assert_eq!(
        *steps.last().unwrap(),
        transition(VK_IMAGE_LAYOUT_TRANSFER_DST_OPTIMAL, VK_IMAGE_LAYOUT_SHADER_READ_ONLY_OPTIMAL, 6, 1)
    );
}

#[test]
fn every_level_ends_readable_when_the_plan_is_replayed() {
    for (w, h) in [(1u32, 1u32), (64, 8), (100, 100), (3, 17)] {
        let levels = mip_level_count(w, h);
        let mut layouts = vec![VK_IMAGE_LAYOUT_UNDEFINED; levels as usize];
        for step in upload_steps(w, h, levels) {
            match step {
                UploadStep::Transition { old_layout, new_layout, base_mip_level, level_count } => {
                    for l in base_mip_level..base_mip_level + level_count {
                        assert_eq!(layouts[l as usize], old_layout);
                        layouts[l as usize] = new_layout;
                    }
                }
                UploadStep::CopyLevelZero { .. } => assert_eq!(layouts[0], VK_IMAGE_LAYOUT_TRANSFER_DST_OPTIMAL),
                UploadStep::Blit { src_level, dst_level, dst_width, dst_height, .. } => {
                    assert_eq!(layouts[src_level as usize], VK_IMAGE_LAYOUT_TRANSFER_SRC_OPTIMAL);
                    assert_eq!(layouts[dst_level as usize], VK_IMAGE_LAYOUT_TRANSFER_DST_OPTIMAL);
                    if dst_level + 1 == levels {
                        assert_eq!((dst_width, dst_height), (1, 1));
                    }
                }
            }
        }
        assert!(layouts.iter().all(|l| *l == VK_IMAGE_LAYOUT_SHADER_READ_ONLY_OPTIMAL));
    }
}

#[test]
fn each_transition_gets_its_stages_and_access_masks() {
    let m = layout_transition_masks(VK_IMAGE_LAYOUT_UNDEFINED, VK_IMAGE_LAYOUT_TRANSFER_DST_OPTIMAL);
    assert_eq!(
        (m.src_access_mask, m.dst_access_mask, m.src_stage_mask, m.dst_stage_mask),
        (0, VK_ACCESS_TRANSFER_WRITE_BIT, VK_PIPELINE_STAGE_TOP_OF_PIPE_BIT, VK_PIPELINE_STAGE_TRANSFER_BIT)
    );
    let m = layout_transition_masks(VK_IMAGE_LAYOUT_TRANSFER_DST_OPTIMAL, VK_IMAGE_LAYOUT_TRANSFER_SRC_OPTIMAL);
    assert_eq!(
        (m.src_access_mask, m.dst_access_mask, m.src_stage_mask, m.dst_stage_mask),
        (VK_ACCESS_TRANSFER_WRITE_BIT, VK_ACCESS_TRANSFER_READ_BIT, VK_PIPELINE_STAGE_TRANSFER_BIT, VK_PIPELINE_STAGE_TRANSFER_BIT)
    );
    let m = layout_transition_masks(VK_IMAGE_LAYOUT_TRANSFER_DST_OPTIMAL, VK_IMAGE_LAYOUT_SHADER_READ_ONLY_OPTIMAL);
    assert_eq!(
        (m.src_access_mask, m.dst_access_mask, m.src_stage_mask, m.dst_stage_mask),
        (VK_ACCESS_TRANSFER_WRITE_BIT, VK_ACCESS_SHADER_READ_BIT, VK_PIPELINE_STAGE_TRANSFER_BIT, VK_PIPELINE_STAGE_FRAGMENT_SHADER_BIT)
    );
    let m = layout_transition_masks(VK_IMAGE_LAYOUT_TRANSFER_SRC_OPTIMAL, VK_IMAGE_LAYOUT_SHADER_READ_ONLY_OPTIMAL);
    assert_eq!(
        (m.src_access_mask, m.dst_access_mask, m.src_stage_mask, m.dst_stage_mask),
        (VK_ACCESS_TRANSFER_READ_BIT, VK_ACCESS_SHADER_READ_BIT, VK_PIPELINE_STAGE_TRANSFER_BIT, VK_PIPELINE_STAGE_FRAGMENT_SHADER_BIT)
    );
}

#[test]
fn the_copy_covers_level_zero_and_the_view_covers_every_level() {
    let region = level_zero_copy_region(8, 4);
    assert_eq!((region.image_extent.width, region.image_extent.height, region.image_extent.depth), (8, 4, 1));
    assert_eq!(region.image_subresource.mip_level, 0);
    assert_eq!(region.image_subresource.layer_count, 1);
    let range = texture_view_range(7);
    assert_eq!((range.base_mip_level, range.level_count, range.layer_count), (0, 7, 1));
}

#[test]
fn a_gpu_image_keeps_its_handles() {
    let image = GpuImage::new(VkImageView(3), 5, VkImage(7), VkDeviceMemory(9));
    assert_eq!(image.view(), VkImageView(3));
    assert_eq!(image.mip_levels, 5);
    assert_eq!(image.image(), VkImage(7));
    assert_eq!(image.memory(), VkDeviceMemory(9));
}

#[test]
fn only_the_upload_transitions_are_known() {
    assert!(supports_transition(VK_IMAGE_LAYOUT_UNDEFINED, VK_IMAGE_LAYOUT_TRANSFER_DST_OPTIMAL));
    assert!(supports_transition(VK_IMAGE_LAYOUT_TRANSFER_DST_OPTIMAL, VK_IMAGE_LAYOUT_TRANSFER_SRC_OPTIMAL));
    assert!(supports_transition(VK_IMAGE_LAYOUT_TRANSFER_DST_OPTIMAL, VK_IMAGE_LAYOUT_SHADER_READ_ONLY_OPTIMAL));
    assert!(supports_transition(VK_IMAGE_LAYOUT_TRANSFER_SRC_OPTIMAL, VK_IMAGE_LAYOUT_SHADER_READ_ONLY_OPTIMAL));
    assert!(!supports_transition(VK_IMAGE_LAYOUT_UNDEFINED, VK_IMAGE_LAYOUT_SHADER_READ_ONLY_OPTIMAL));
    assert!(!supports_transition(VK_IMAGE_LAYOUT_SHADER_READ_ONLY_OPTIMAL, VK_IMAGE_LAYOUT_TRANSFER_DST_OPTIMAL));
}

#[test]
fn a_texture_is_an_rgba8_device_local_image_written_and_sampled() {
    use_description(texture_image_description(64, 8, 7));
    assert_eq!(TEXTURE_MEMORY_PROPERTIES, xd_engine::vk_types::VK_MEMORY_PROPERTY_DEVICE_LOCAL_BIT);
}

fn use_description(d: xd_engine::vk_types::ImageDescription) {
    assert_eq!(d.format, xd_engine::vk_types::VK_FORMAT_R8G8B8A8_UNORM);
    assert_eq!((d.width, d.height, d.depth, d.mip_levels, d.array_layers), (64, 8, 1, 7, 1));
    assert_eq!(d.tiling, xd_engine::vk_types::VK_IMAGE_TILING_OPTIMAL);
    // Transfer destination (copy, blits), transfer source (blits), sampled.
    assert_eq!(d.usage, 0x1 | 0x2 | 0x4);
    assert_eq!(d.initial_layout, VK_IMAGE_LAYOUT_UNDEFINED);
}
