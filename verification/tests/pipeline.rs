use xd_engine::pipeline::{fixed_function_state, FixedFunctionState};
use xd_engine::vk_types::{
    VK_COMPARE_OP_LESS, VK_CULL_MODE_BACK_BIT, VK_FRONT_FACE_COUNTER_CLOCKWISE, VK_POLYGON_MODE_FILL,
    VK_PRIMITIVE_TOPOLOGY_TRIANGLE_LIST, VK_TRUE,
};
use xd_engine::depth::{depth_view_range, DepthBuffer};
use xd_engine::descriptor::{pool_size, texture_binding, texture_image_info};
use xd_engine::pipeline::{
    color_attachment_ref, color_blend_attachment, depth_attachment_ref, framebuffer_attachments,
    push_constant_range, render_pass_attachments, render_pass_dependency, render_subpass, unused_stencil_state,
    vertex_input_layout, COLOR_ATTACHMENT_INDEX, DEPTH_ATTACHMENT_INDEX,
};
use xd_engine::vk_types::{
    VkDescriptorImageInfo, VkDescriptorPoolSize, VkDeviceMemory, VkImage, VkImageSubresourceRange, VkImageView,
    VkPushConstantRange, VkSampler, VK_ACCESS_COLOR_ATTACHMENT_WRITE_BIT,
    VK_ACCESS_DEPTH_STENCIL_ATTACHMENT_WRITE_BIT, VK_ATTACHMENT_LOAD_OP_CLEAR, VK_ATTACHMENT_STORE_OP_DONT_CARE,
    VK_ATTACHMENT_STORE_OP_STORE, VK_COMPARE_OP_ALWAYS, VK_DESCRIPTOR_TYPE_COMBINED_IMAGE_SAMPLER, VK_FALSE,
    VK_FORMAT_B8G8R8A8_UNORM, VK_FORMAT_D32_SFLOAT, VK_FORMAT_R32G32B32_SFLOAT, VK_FORMAT_R32G32_SFLOAT,
    VK_IMAGE_ASPECT_DEPTH_BIT, VK_IMAGE_LAYOUT_COLOR_ATTACHMENT_OPTIMAL,
    VK_IMAGE_LAYOUT_DEPTH_STENCIL_ATTACHMENT_OPTIMAL, VK_IMAGE_LAYOUT_PRESENT_SRC_KHR,
    VK_IMAGE_LAYOUT_SHADER_READ_ONLY_OPTIMAL, VK_SHADER_STAGE_FRAGMENT_BIT, VK_SHADER_STAGE_VERTEX_BIT,
    VK_PIPELINE_BIND_POINT_GRAPHICS, VK_STENCIL_OP_KEEP, VK_SUBPASS_EXTERNAL,
};

#[test]
fn colour_is_presented_and_depth_is_thrown_away() {
    let attachments = render_pass_attachments(VK_FORMAT_B8G8R8A8_UNORM);
    let color = attachments[COLOR_ATTACHMENT_INDEX as usize];
    let depth = attachments[DEPTH_ATTACHMENT_INDEX as usize];
    assert_eq!(color.format, VK_FORMAT_B8G8R8A8_UNORM);
    assert_eq!((color.load_op, color.store_op), (VK_ATTACHMENT_LOAD_OP_CLEAR, VK_ATTACHMENT_STORE_OP_STORE));
    assert_eq!(color.final_layout, VK_IMAGE_LAYOUT_PRESENT_SRC_KHR);
    assert_eq!(depth.format, VK_FORMAT_D32_SFLOAT);
    assert_eq!((depth.load_op, depth.store_op), (VK_ATTACHMENT_LOAD_OP_CLEAR, VK_ATTACHMENT_STORE_OP_DONT_CARE));
    assert_eq!(depth.final_layout, VK_IMAGE_LAYOUT_DEPTH_STENCIL_ATTACHMENT_OPTIMAL);
}

#[test]
fn the_references_point_at_their_attachments() {
    let attachments = render_pass_attachments(VK_FORMAT_B8G8R8A8_UNORM);
    let color = color_attachment_ref();
    let depth = depth_attachment_ref();
    assert_eq!(color.layout, VK_IMAGE_LAYOUT_COLOR_ATTACHMENT_OPTIMAL);
    assert_eq!(attachments[color.attachment as usize].format, VK_FORMAT_B8G8R8A8_UNORM);
    assert_eq!(attachments[depth.attachment as usize].format, VK_FORMAT_D32_SFLOAT);
    assert_eq!(attachments[depth.attachment as usize].final_layout, depth.layout);
    let views = framebuffer_attachments(VkImageView(5), VkImageView(6));
    assert_eq!(views[color.attachment as usize], VkImageView(5));
    assert_eq!(views[depth.attachment as usize], VkImageView(6));
}

#[test]
fn the_dependency_waits_for_colour_and_depth_writes() {
    let dependency = render_pass_dependency();
    assert_eq!((dependency.src_subpass, dependency.dst_subpass), (VK_SUBPASS_EXTERNAL, 0));
    assert_eq!(dependency.src_access_mask, 0);
    assert_eq!(
        dependency.dst_access_mask,
        VK_ACCESS_COLOR_ATTACHMENT_WRITE_BIT | VK_ACCESS_DEPTH_STENCIL_ATTACHMENT_WRITE_BIT
    );
    assert_eq!(dependency.src_stage_mask, 0x400 | 0x100);
}

#[test]
fn vertices_are_interleaved_position_normal_uv() {
    let (binding, attributes) = vertex_input_layout(32, 0, 12, 24);
    assert_eq!((binding.binding, binding.stride), (0, 32));
    assert_eq!((attributes[0].location, attributes[0].format, attributes[0].offset), (0, VK_FORMAT_R32G32B32_SFLOAT, 0));
    assert_eq!((attributes[1].location, attributes[1].format, attributes[1].offset), (1, VK_FORMAT_R32G32B32_SFLOAT, 12));
    assert_eq!((attributes[2].location, attributes[2].format, attributes[2].offset), (2, VK_FORMAT_R32G32_SFLOAT, 24));
}

#[test]
fn fixed_pipeline_state() {
    assert_eq!(push_constant_range(128), VkPushConstantRange { stage_flags: VK_SHADER_STAGE_VERTEX_BIT, offset: 0, size: 128 });
    let blend = color_blend_attachment();
    assert_eq!(blend.blend_enable, VK_FALSE);
    assert_eq!(blend.color_write_mask, 0xF);
    let stencil = unused_stencil_state();
    assert_eq!((stencil.fail_op, stencil.pass_op, stencil.depth_fail_op), (VK_STENCIL_OP_KEEP, VK_STENCIL_OP_KEEP, VK_STENCIL_OP_KEEP));
    assert_eq!(stencil.compare_op, VK_COMPARE_OP_ALWAYS);
}

#[test]
fn the_texture_is_one_combined_image_sampler_for_the_fragment_stage() {
    let binding = texture_binding();
    assert_eq!((binding.binding, binding.descriptor_count), (0, 1));
    assert_eq!(binding.descriptor_type, VK_DESCRIPTOR_TYPE_COMBINED_IMAGE_SAMPLER);
    assert_eq!(binding.stage_flags, VK_SHADER_STAGE_FRAGMENT_BIT);
    assert_eq!(
        pool_size(4),
        VkDescriptorPoolSize { descriptor_type: VK_DESCRIPTOR_TYPE_COMBINED_IMAGE_SAMPLER, descriptor_count: 4 }
    );
    assert_eq!(
        texture_image_info(VkImageView(3), VkSampler(8)),
        VkDescriptorImageInfo {
            sampler: VkSampler(8),
            image_view: VkImageView(3),
            image_layout: VK_IMAGE_LAYOUT_SHADER_READ_ONLY_OPTIMAL,
        }
    );
}

#[test]
fn the_depth_view_covers_the_depth_aspect_only() {
    assert_eq!(
        depth_view_range(),
        VkImageSubresourceRange {
            aspect_mask: VK_IMAGE_ASPECT_DEPTH_BIT,
            base_mip_level: 0,
            level_count: 1,
            base_array_layer: 0,
            layer_count: 1,
        }
    );
    let depth = DepthBuffer::new(VkImageView(1), VkImage(2), VkDeviceMemory(3));
    assert_eq!(depth.view, VkImageView(1));
    assert_eq!(depth.image(), VkImage(2));
    assert_eq!(depth.memory(), VkDeviceMemory(3));
}

#[test]
fn the_one_subpass_writes_colour_and_tests_depth() {
    let subpass = render_subpass();
    assert_eq!(subpass.pipeline_bind_point, VK_PIPELINE_BIND_POINT_GRAPHICS);
    assert_eq!(subpass.color_attachment, color_attachment_ref());
    assert_eq!(subpass.depth_stencil_attachment, depth_attachment_ref());
    assert_eq!(subpass.flags, 0);
}

#[test]
fn triangles_are_filled_back_faces_culled_and_nearer_fragments_kept() {
    assert_eq!(
        fixed_function_state(),
        FixedFunctionState {
            topology: VK_PRIMITIVE_TOPOLOGY_TRIANGLE_LIST,
            primitive_restart_enable: VK_FALSE,
            polygon_mode: VK_POLYGON_MODE_FILL,
            cull_mode: VK_CULL_MODE_BACK_BIT,
            front_face: VK_FRONT_FACE_COUNTER_CLOCKWISE,
            depth_test_enable: VK_TRUE,
            depth_write_enable: VK_TRUE,
            depth_compare_op: VK_COMPARE_OP_LESS,
        }
    );
    assert_eq!((VK_PRIMITIVE_TOPOLOGY_TRIANGLE_LIST, VK_CULL_MODE_BACK_BIT, VK_COMPARE_OP_LESS), (3, 2, 1));
}
