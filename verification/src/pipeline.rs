//! The render pass and the graphics pipeline: the fixed descriptions they are
//! created from. Creating them is the caller's Vulkan call.
//!
//! The render pass has two attachments, colour at index 0 and depth at index
//! 1; framebuffers and clear values follow the same order.

use vstd::prelude::*;
use crate::vk_types::{
    VkAttachmentDescription, VkAttachmentReference, VkSubpassDescription, VK_PIPELINE_BIND_POINT_GRAPHICS, VkEnum, VkImageView, VkPipeline, VkPipelineColorBlendAttachmentState,
    VkPipelineLayout, VkPushConstantRange, VkStencilOpState, VkSubpassDependency,
    VkVertexInputAttributeDescription, VkVertexInputBindingDescription,
    VK_ACCESS_COLOR_ATTACHMENT_WRITE_BIT, VK_ACCESS_DEPTH_STENCIL_ATTACHMENT_WRITE_BIT,
    VK_ATTACHMENT_LOAD_OP_CLEAR, VK_ATTACHMENT_LOAD_OP_DONT_CARE, VK_ATTACHMENT_STORE_OP_DONT_CARE,
    VK_ATTACHMENT_STORE_OP_STORE, VK_COLOR_COMPONENT_A_BIT, VK_COLOR_COMPONENT_B_BIT,
    VK_COLOR_COMPONENT_G_BIT, VK_COLOR_COMPONENT_R_BIT, VK_COMPARE_OP_ALWAYS, VK_FALSE,
    VK_FORMAT_D32_SFLOAT, VK_FORMAT_R32G32B32_SFLOAT, VK_FORMAT_R32G32_SFLOAT,
    VK_IMAGE_LAYOUT_COLOR_ATTACHMENT_OPTIMAL, VK_IMAGE_LAYOUT_DEPTH_STENCIL_ATTACHMENT_OPTIMAL,
    VK_IMAGE_LAYOUT_PRESENT_SRC_KHR, VK_IMAGE_LAYOUT_UNDEFINED,
    VK_PIPELINE_STAGE_COLOR_ATTACHMENT_OUTPUT_BIT, VK_PIPELINE_STAGE_EARLY_FRAGMENT_TESTS_BIT,
    VK_SAMPLE_COUNT_1_BIT, VK_SHADER_STAGE_VERTEX_BIT, VK_STENCIL_OP_KEEP, VK_SUBPASS_EXTERNAL,
    VK_VERTEX_INPUT_RATE_VERTEX, VkBool32, VkFlags, VK_COMPARE_OP_LESS, VK_CULL_MODE_BACK_BIT,
    VK_FRONT_FACE_COUNTER_CLOCKWISE, VK_POLYGON_MODE_FILL, VK_PRIMITIVE_TOPOLOGY_TRIANGLE_LIST, VK_TRUE,
};

verus! {

/// The pipeline and its layout.
pub struct Pipeline {
    pub layout: VkPipelineLayout,
    pub handle: VkPipeline,
}

pub const COLOR_ATTACHMENT_INDEX: u32 = 0;

pub const DEPTH_ATTACHMENT_INDEX: u32 = 1;

/// The two attachments of the render pass, in index order.
///
/// Colour: the swapchain's format, cleared on load, stored, and left ready
/// for presentation. Depth: 32-bit float, cleared on load, NOT stored — it
/// only serves the current frame — and its previous contents are discarded.
pub fn render_pass_attachments(swapchain_format: VkEnum) -> (attachments: [VkAttachmentDescription; 2])
    ensures
        attachments@[COLOR_ATTACHMENT_INDEX as int] == (VkAttachmentDescription {
            flags: 0,
            format: swapchain_format,
            samples: VK_SAMPLE_COUNT_1_BIT,
            load_op: VK_ATTACHMENT_LOAD_OP_CLEAR,
            store_op: VK_ATTACHMENT_STORE_OP_STORE,
            stencil_load_op: VK_ATTACHMENT_LOAD_OP_DONT_CARE,
            stencil_store_op: VK_ATTACHMENT_STORE_OP_DONT_CARE,
            initial_layout: VK_IMAGE_LAYOUT_UNDEFINED,
            final_layout: VK_IMAGE_LAYOUT_PRESENT_SRC_KHR,
        }),
        attachments@[DEPTH_ATTACHMENT_INDEX as int] == (VkAttachmentDescription {
            flags: 0,
            format: VK_FORMAT_D32_SFLOAT,
            samples: VK_SAMPLE_COUNT_1_BIT,
            load_op: VK_ATTACHMENT_LOAD_OP_CLEAR,
            store_op: VK_ATTACHMENT_STORE_OP_DONT_CARE,
            stencil_load_op: VK_ATTACHMENT_LOAD_OP_DONT_CARE,
            stencil_store_op: VK_ATTACHMENT_STORE_OP_DONT_CARE,
            initial_layout: VK_IMAGE_LAYOUT_UNDEFINED,
            final_layout: VK_IMAGE_LAYOUT_DEPTH_STENCIL_ATTACHMENT_OPTIMAL,
        }),
{
    let color = VkAttachmentDescription {
        flags: 0,
        format: swapchain_format,
        samples: VK_SAMPLE_COUNT_1_BIT,
        load_op: VK_ATTACHMENT_LOAD_OP_CLEAR,
        store_op: VK_ATTACHMENT_STORE_OP_STORE,
        stencil_load_op: VK_ATTACHMENT_LOAD_OP_DONT_CARE,
        stencil_store_op: VK_ATTACHMENT_STORE_OP_DONT_CARE,
        initial_layout: VK_IMAGE_LAYOUT_UNDEFINED,
        final_layout: VK_IMAGE_LAYOUT_PRESENT_SRC_KHR,
    };
    let depth = VkAttachmentDescription {
        flags: 0,
        format: VK_FORMAT_D32_SFLOAT,
        samples: VK_SAMPLE_COUNT_1_BIT,
        load_op: VK_ATTACHMENT_LOAD_OP_CLEAR,
        store_op: VK_ATTACHMENT_STORE_OP_DONT_CARE,
        stencil_load_op: VK_ATTACHMENT_LOAD_OP_DONT_CARE,
        stencil_store_op: VK_ATTACHMENT_STORE_OP_DONT_CARE,
        initial_layout: VK_IMAGE_LAYOUT_UNDEFINED,
        final_layout: VK_IMAGE_LAYOUT_DEPTH_STENCIL_ATTACHMENT_OPTIMAL,
    };
    [color, depth]
}

/// The subpass's colour reference.
pub fn color_attachment_ref() -> (reference: VkAttachmentReference)
    ensures
        reference == (VkAttachmentReference {
            attachment: COLOR_ATTACHMENT_INDEX,
            layout: VK_IMAGE_LAYOUT_COLOR_ATTACHMENT_OPTIMAL,
        }),
{
    VkAttachmentReference { attachment: COLOR_ATTACHMENT_INDEX, layout: VK_IMAGE_LAYOUT_COLOR_ATTACHMENT_OPTIMAL }
}

/// The subpass's depth reference.
pub fn depth_attachment_ref() -> (reference: VkAttachmentReference)
    ensures
        reference == (VkAttachmentReference {
            attachment: DEPTH_ATTACHMENT_INDEX,
            layout: VK_IMAGE_LAYOUT_DEPTH_STENCIL_ATTACHMENT_OPTIMAL,
        }),
{
    VkAttachmentReference {
        attachment: DEPTH_ATTACHMENT_INDEX,
        layout: VK_IMAGE_LAYOUT_DEPTH_STENCIL_ATTACHMENT_OPTIMAL,
    }
}

/// The render pass's one subpass: a graphics subpass writing the colour
/// attachment and testing against the depth attachment.
pub fn render_subpass() -> (subpass: VkSubpassDescription)
    ensures
        subpass == (VkSubpassDescription {
            flags: 0,
            pipeline_bind_point: VK_PIPELINE_BIND_POINT_GRAPHICS,
            color_attachment: VkAttachmentReference {
                attachment: COLOR_ATTACHMENT_INDEX,
                layout: VK_IMAGE_LAYOUT_COLOR_ATTACHMENT_OPTIMAL,
            },
            depth_stencil_attachment: VkAttachmentReference {
                attachment: DEPTH_ATTACHMENT_INDEX,
                layout: VK_IMAGE_LAYOUT_DEPTH_STENCIL_ATTACHMENT_OPTIMAL,
            },
        }),
{
    VkSubpassDescription {
        flags: 0,
        pipeline_bind_point: VK_PIPELINE_BIND_POINT_GRAPHICS,
        color_attachment: color_attachment_ref(),
        depth_stencil_attachment: depth_attachment_ref(),
    }
}

/// The dependency on what came before the render pass: colour output and the
/// early fragment tests (where the depth clear happens) wait for the previous
/// use of the images before writing colour and depth.
pub fn render_pass_dependency() -> (dependency: VkSubpassDependency)
    ensures
        dependency == (VkSubpassDependency {
            src_subpass: VK_SUBPASS_EXTERNAL,
            dst_subpass: 0,
            src_stage_mask: VK_PIPELINE_STAGE_COLOR_ATTACHMENT_OUTPUT_BIT
                | VK_PIPELINE_STAGE_EARLY_FRAGMENT_TESTS_BIT,
            dst_stage_mask: VK_PIPELINE_STAGE_COLOR_ATTACHMENT_OUTPUT_BIT
                | VK_PIPELINE_STAGE_EARLY_FRAGMENT_TESTS_BIT,
            src_access_mask: 0,
            dst_access_mask: VK_ACCESS_COLOR_ATTACHMENT_WRITE_BIT
                | VK_ACCESS_DEPTH_STENCIL_ATTACHMENT_WRITE_BIT,
            dependency_flags: 0,
        }),
{
    VkSubpassDependency {
        src_subpass: VK_SUBPASS_EXTERNAL,
        dst_subpass: 0,
        src_stage_mask: VK_PIPELINE_STAGE_COLOR_ATTACHMENT_OUTPUT_BIT | VK_PIPELINE_STAGE_EARLY_FRAGMENT_TESTS_BIT,
        dst_stage_mask: VK_PIPELINE_STAGE_COLOR_ATTACHMENT_OUTPUT_BIT | VK_PIPELINE_STAGE_EARLY_FRAGMENT_TESTS_BIT,
        src_access_mask: 0,
        dst_access_mask: VK_ACCESS_COLOR_ATTACHMENT_WRITE_BIT | VK_ACCESS_DEPTH_STENCIL_ATTACHMENT_WRITE_BIT,
        dependency_flags: 0,
    }
}

/// The subpass references point at the attachments they mean: the colour
/// reference at the attachment in the swapchain's format that ends up
/// presented, the depth reference at the depth-format attachment.
pub proof fn law_references_match_attachments(swapchain_format: VkEnum, attachments: [VkAttachmentDescription; 2], color: VkAttachmentReference, depth: VkAttachmentReference)
    requires
        attachments@[COLOR_ATTACHMENT_INDEX as int] == (VkAttachmentDescription {
            flags: 0,
            format: swapchain_format,
            samples: VK_SAMPLE_COUNT_1_BIT,
            load_op: VK_ATTACHMENT_LOAD_OP_CLEAR,
            store_op: VK_ATTACHMENT_STORE_OP_STORE,
            stencil_load_op: VK_ATTACHMENT_LOAD_OP_DONT_CARE,
            stencil_store_op: VK_ATTACHMENT_STORE_OP_DONT_CARE,
            initial_layout: VK_IMAGE_LAYOUT_UNDEFINED,
            final_layout: VK_IMAGE_LAYOUT_PRESENT_SRC_KHR,
        }),
        attachments@[DEPTH_ATTACHMENT_INDEX as int] == (VkAttachmentDescription {
            flags: 0,
            format: VK_FORMAT_D32_SFLOAT,
            samples: VK_SAMPLE_COUNT_1_BIT,
            load_op: VK_ATTACHMENT_LOAD_OP_CLEAR,
            store_op: VK_ATTACHMENT_STORE_OP_DONT_CARE,
            stencil_load_op: VK_ATTACHMENT_LOAD_OP_DONT_CARE,
            stencil_store_op: VK_ATTACHMENT_STORE_OP_DONT_CARE,
            initial_layout: VK_IMAGE_LAYOUT_UNDEFINED,
            final_layout: VK_IMAGE_LAYOUT_DEPTH_STENCIL_ATTACHMENT_OPTIMAL,
        }),
        color == (VkAttachmentReference {
            attachment: COLOR_ATTACHMENT_INDEX,
            layout: VK_IMAGE_LAYOUT_COLOR_ATTACHMENT_OPTIMAL,
        }),
        depth == (VkAttachmentReference {
            attachment: DEPTH_ATTACHMENT_INDEX,
            layout: VK_IMAGE_LAYOUT_DEPTH_STENCIL_ATTACHMENT_OPTIMAL,
        }),
    ensures
        attachments@[color.attachment as int].format == swapchain_format,
        attachments@[color.attachment as int].final_layout == VK_IMAGE_LAYOUT_PRESENT_SRC_KHR,
        attachments@[depth.attachment as int].format == VK_FORMAT_D32_SFLOAT,
        attachments@[depth.attachment as int].final_layout == depth.layout,
        color.attachment != depth.attachment,
{
}

/// The vertex input of the pipeline: one binding of interleaved vertices of
/// `stride` bytes, position (location 0) and normal (location 1) as three
/// floats, UV (location 2) as two, at the given byte offsets.
pub fn vertex_input_layout(stride: u32, position_offset: u32, normal_offset: u32, uv_offset: u32) -> (layout: (
    VkVertexInputBindingDescription,
    [VkVertexInputAttributeDescription; 3],
))
    ensures
        layout.0 == (VkVertexInputBindingDescription {
            binding: 0,
            stride,
            input_rate: VK_VERTEX_INPUT_RATE_VERTEX,
        }),
        layout.1@[0] == (VkVertexInputAttributeDescription {
            location: 0,
            binding: 0,
            format: VK_FORMAT_R32G32B32_SFLOAT,
            offset: position_offset,
        }),
        layout.1@[1] == (VkVertexInputAttributeDescription {
            location: 1,
            binding: 0,
            format: VK_FORMAT_R32G32B32_SFLOAT,
            offset: normal_offset,
        }),
        layout.1@[2] == (VkVertexInputAttributeDescription {
            location: 2,
            binding: 0,
            format: VK_FORMAT_R32G32_SFLOAT,
            offset: uv_offset,
        }),
{
    let binding = VkVertexInputBindingDescription { binding: 0, stride, input_rate: VK_VERTEX_INPUT_RATE_VERTEX };
    let attributes = [
        VkVertexInputAttributeDescription {
            location: 0,
            binding: 0,
            format: VK_FORMAT_R32G32B32_SFLOAT,
            offset: position_offset,
        },
        VkVertexInputAttributeDescription {
            location: 1,
            binding: 0,
            format: VK_FORMAT_R32G32B32_SFLOAT,
            offset: normal_offset,
        },
        VkVertexInputAttributeDescription {
            location: 2,
            binding: 0,
            format: VK_FORMAT_R32G32_SFLOAT,
            offset: uv_offset,
        },
    ];
    (binding, attributes)
}

/// The push-constant block: read by the vertex stage only, `size` bytes from
/// offset 0.
pub fn push_constant_range(size: u32) -> (range: VkPushConstantRange)
    ensures
        range == (VkPushConstantRange { stage_flags: VK_SHADER_STAGE_VERTEX_BIT, offset: 0, size }),
{
    VkPushConstantRange { stage_flags: VK_SHADER_STAGE_VERTEX_BIT, offset: 0, size }
}

/// No blending: the fragment replaces what was there, in all four channels.
pub fn color_blend_attachment() -> (state: VkPipelineColorBlendAttachmentState)
    ensures
        state == (VkPipelineColorBlendAttachmentState {
            blend_enable: VK_FALSE,
            src_color_blend_factor: 0,
            dst_color_blend_factor: 0,
            color_blend_op: 0,
            src_alpha_blend_factor: 0,
            dst_alpha_blend_factor: 0,
            alpha_blend_op: 0,
            color_write_mask: VK_COLOR_COMPONENT_R_BIT | VK_COLOR_COMPONENT_G_BIT | VK_COLOR_COMPONENT_B_BIT
                | VK_COLOR_COMPONENT_A_BIT,
        }),
{
    VkPipelineColorBlendAttachmentState {
        blend_enable: VK_FALSE,
        src_color_blend_factor: 0,
        dst_color_blend_factor: 0,
        color_blend_op: 0,
        src_alpha_blend_factor: 0,
        dst_alpha_blend_factor: 0,
        alpha_blend_op: 0,
        color_write_mask: VK_COLOR_COMPONENT_R_BIT | VK_COLOR_COMPONENT_G_BIT | VK_COLOR_COMPONENT_B_BIT
            | VK_COLOR_COMPONENT_A_BIT,
    }
}

/// The stencil state of both faces: the stencil test is off, and every
/// operation keeps the stored value.
pub fn unused_stencil_state() -> (state: VkStencilOpState)
    ensures
        state == (VkStencilOpState {
            fail_op: VK_STENCIL_OP_KEEP,
            pass_op: VK_STENCIL_OP_KEEP,
            depth_fail_op: VK_STENCIL_OP_KEEP,
            compare_op: VK_COMPARE_OP_ALWAYS,
            compare_mask: 0,
            write_mask: 0,
            reference: 0,
        }),
{
    VkStencilOpState {
        fail_op: VK_STENCIL_OP_KEEP,
        pass_op: VK_STENCIL_OP_KEEP,
        depth_fail_op: VK_STENCIL_OP_KEEP,
        compare_op: VK_COMPARE_OP_ALWAYS,
        compare_mask: 0,
        write_mask: 0,
        reference: 0,
    }
}

/// A framebuffer's attachments in the render pass's order: the swapchain
/// image's view at the colour index, the one depth view at the depth index.
/// A framebuffer checks nothing and writes by index.
pub fn framebuffer_attachments(color_view: VkImageView, depth_view: VkImageView) -> (views: [VkImageView; 2])
    ensures
        views@[COLOR_ATTACHMENT_INDEX as int] == color_view,
        views@[DEPTH_ATTACHMENT_INDEX as int] == depth_view,
{
    [color_view, depth_view]
}

/// The pipeline's fixed state apart from its float parameters: how vertices
/// assemble, which triangles are drawn, and the depth test.
#[derive(Clone, Copy, Debug, PartialEq, Eq, Structural)]
pub struct FixedFunctionState {
    pub topology: VkEnum,
    pub primitive_restart_enable: VkBool32,
    pub polygon_mode: VkEnum,
    pub cull_mode: VkFlags,
    pub front_face: VkEnum,
    pub depth_test_enable: VkBool32,
    pub depth_write_enable: VkBool32,
    pub depth_compare_op: VkEnum,
}

/// Every three indices make a triangle, drawn filled. Triangles wound
/// clockwise on screen face away and are culled: the meshes list their
/// outer faces counter-clockwise. A fragment is kept, and its depth written,
/// when it is strictly nearer than what the depth buffer holds; the buffer
/// is cleared to the far plane.
pub fn fixed_function_state() -> (state: FixedFunctionState)
    ensures
        state == (FixedFunctionState {
            topology: VK_PRIMITIVE_TOPOLOGY_TRIANGLE_LIST,
            primitive_restart_enable: VK_FALSE,
            polygon_mode: VK_POLYGON_MODE_FILL,
            cull_mode: VK_CULL_MODE_BACK_BIT,
            front_face: VK_FRONT_FACE_COUNTER_CLOCKWISE,
            depth_test_enable: VK_TRUE,
            depth_write_enable: VK_TRUE,
            depth_compare_op: VK_COMPARE_OP_LESS,
        }),
{
    FixedFunctionState {
        topology: VK_PRIMITIVE_TOPOLOGY_TRIANGLE_LIST,
        primitive_restart_enable: VK_FALSE,
        polygon_mode: VK_POLYGON_MODE_FILL,
        cull_mode: VK_CULL_MODE_BACK_BIT,
        front_face: VK_FRONT_FACE_COUNTER_CLOCKWISE,
        depth_test_enable: VK_TRUE,
        depth_write_enable: VK_TRUE,
        depth_compare_op: VK_COMPARE_OP_LESS,
    }
}

} // verus!
