//! Plain-data Vulkan vocabulary: integer aliases, handles, the constants the
//! backend decides with, and the descriptive structures it fills in.
//!
//! Handles are carried as 64-bit values: the library only stores and forwards
//! them, it never dereferences one.

use vstd::prelude::*;

verus! {

pub type VkFlags = u32;

pub type VkBool32 = u32;

pub type VkDeviceSize = u64;

/// `VkStructureType`, `VkFormat`, `VkResult` and the other C enums: four
/// signed bytes, since `VkResult` has negative error codes.
pub type VkEnum = i32;

pub const VK_SUCCESS: VkEnum = 0;

pub const VK_NOT_READY: VkEnum = 1;

pub const VK_TIMEOUT: VkEnum = 2;

pub const VK_SUBOPTIMAL_KHR: VkEnum = 1_000_001_003;

pub const VK_ERROR_OUT_OF_HOST_MEMORY: VkEnum = -1;

pub const VK_ERROR_OUT_OF_DEVICE_MEMORY: VkEnum = -2;

pub const VK_ERROR_INITIALIZATION_FAILED: VkEnum = -3;

pub const VK_ERROR_DEVICE_LOST: VkEnum = -4;

pub const VK_ERROR_LAYER_NOT_PRESENT: VkEnum = -6;

pub const VK_ERROR_EXTENSION_NOT_PRESENT: VkEnum = -7;

pub const VK_ERROR_INCOMPATIBLE_DRIVER: VkEnum = -9;

/// The swapchain outlived its window (resize, another monitor): a signal to
/// rebuild it rather than a failed call.
pub const VK_ERROR_OUT_OF_DATE_KHR: VkEnum = -1_000_001_004;

pub const VK_ERROR_SURFACE_LOST_KHR: VkEnum = -1_000_000_000;

pub const VK_TRUE: VkBool32 = 1;

pub const VK_FALSE: VkBool32 = 0;

/// The packed value `VK_MAKE_API_VERSION` describes: 3 bits of variant,
/// 7 of major, 10 of minor and 12 of patch, from the high bits down.
pub open spec fn spec_api_version(variant: u32, major: u32, minor: u32, patch: u32) -> u32 {
    (variant << 29u32) | (major << 22u32) | (minor << 12u32) | patch
}

/// `VK_MAKE_API_VERSION(variant, major, minor, patch)`.
pub fn vk_make_api_version(variant: u32, major: u32, minor: u32, patch: u32) -> (version: u32)
    ensures
        version == spec_api_version(variant, major, minor, patch),
        variant < 8 && major < 128 && minor < 1024 && patch < 4096 ==> version as int
            == variant * 0x2000_0000 + major * 0x40_0000 + minor * 0x1000 + patch,
{
    let version = (variant << 29u32) | (major << 22u32) | (minor << 12u32) | patch;
    proof {
        if variant < 8 && major < 128 && minor < 1024 && patch < 4096 {
            lemma_api_version_fields(variant, major, minor, patch);
        }
    }
    version
}

proof fn lemma_api_version_fields(variant: u32, major: u32, minor: u32, patch: u32)
    requires
        variant < 8,
        major < 128,
        minor < 1024,
        patch < 4096,
    ensures
        spec_api_version(variant, major, minor, patch) as int == variant * 0x2000_0000 + major
            * 0x40_0000 + minor * 0x1000 + patch,
{
    assert((variant << 29u32) | (major << 22u32) | (minor << 12u32) | patch == variant * 0x2000_0000u32
        + major * 0x40_0000u32 + minor * 0x1000u32 + patch) by (bit_vector)
        requires
            variant < 8,
            major < 128,
            minor < 1024,
            patch < 4096,
    ;
}

// ---------------------------------------------------------------------------
// Handles
// ---------------------------------------------------------------------------

/// `VkBuffer`. Zero is `VK_NULL_HANDLE`.
#[derive(Clone, Copy, Debug, PartialEq, Eq, Structural)]
pub struct VkBuffer(pub u64);

/// `VkDeviceMemory`.
#[derive(Clone, Copy, Debug, PartialEq, Eq, Structural)]
pub struct VkDeviceMemory(pub u64);

/// `VkImage`.
#[derive(Clone, Copy, Debug, PartialEq, Eq, Structural)]
pub struct VkImage(pub u64);

/// `VkImageView`.
#[derive(Clone, Copy, Debug, PartialEq, Eq, Structural)]
pub struct VkImageView(pub u64);

/// `VkSampler`.
#[derive(Clone, Copy, Debug, PartialEq, Eq, Structural)]
pub struct VkSampler(pub u64);

/// `VkDescriptorSet`.
#[derive(Clone, Copy, Debug, PartialEq, Eq, Structural)]
pub struct VkDescriptorSet(pub u64);

/// `VkDescriptorPool`.
#[derive(Clone, Copy, Debug, PartialEq, Eq, Structural)]
pub struct VkDescriptorPool(pub u64);

/// `VkDescriptorSetLayout`.
#[derive(Clone, Copy, Debug, PartialEq, Eq, Structural)]
pub struct VkDescriptorSetLayout(pub u64);

/// `VkSwapchainKHR`.
#[derive(Clone, Copy, Debug, PartialEq, Eq, Structural)]
pub struct VkSwapchainKHR(pub u64);

/// `VkSemaphore`.
#[derive(Clone, Copy, Debug, PartialEq, Eq, Structural)]
pub struct VkSemaphore(pub u64);

/// `VkFence`.
#[derive(Clone, Copy, Debug, PartialEq, Eq, Structural)]
pub struct VkFence(pub u64);

/// `VkPipeline`.
#[derive(Clone, Copy, Debug, PartialEq, Eq, Structural)]
pub struct VkPipeline(pub u64);

/// `VkPipelineLayout`.
#[derive(Clone, Copy, Debug, PartialEq, Eq, Structural)]
pub struct VkPipelineLayout(pub u64);

// ---------------------------------------------------------------------------
// Geometry
// ---------------------------------------------------------------------------

#[derive(Clone, Copy, Debug, Default, PartialEq, Eq, Structural)]
pub struct VkExtent2D {
    pub width: u32,
    pub height: u32,
}

#[derive(Clone, Copy, Debug, Default, PartialEq, Eq, Structural)]
pub struct VkExtent3D {
    pub width: u32,
    pub height: u32,
    pub depth: u32,
}

#[derive(Clone, Copy, Debug, Default, PartialEq, Eq, Structural)]
pub struct VkOffset2D {
    pub x: i32,
    pub y: i32,
}

#[derive(Clone, Copy, Debug, Default, PartialEq, Eq, Structural)]
pub struct VkOffset3D {
    pub x: i32,
    pub y: i32,
    pub z: i32,
}

#[derive(Clone, Copy, Debug, Default, PartialEq, Eq, Structural)]
pub struct VkRect2D {
    pub offset: VkOffset2D,
    pub extent: VkExtent2D,
}

// ---------------------------------------------------------------------------
// Devices, surfaces, memory
// ---------------------------------------------------------------------------

pub const VK_QUEUE_GRAPHICS_BIT: VkFlags = 0x0000_0001;

#[derive(Clone, Copy, Debug, Default, PartialEq, Eq, Structural)]
pub struct VkQueueFamilyProperties {
    pub queue_flags: VkFlags,
    pub queue_count: u32,
    pub timestamp_valid_bits: u32,
    pub min_image_transfer_granularity: VkExtent3D,
}

pub const VK_FORMAT_UNDEFINED: VkEnum = 0;
pub const VK_FORMAT_R8G8B8A8_UNORM: VkEnum = 37;
pub const VK_FORMAT_B8G8R8A8_UNORM: VkEnum = 44;
pub const VK_FORMAT_R32G32_SFLOAT: VkEnum = 103;
pub const VK_FORMAT_R32G32B32_SFLOAT: VkEnum = 106;
pub const VK_FORMAT_D32_SFLOAT: VkEnum = 126;
pub const VK_COLOR_SPACE_SRGB_NONLINEAR_KHR: VkEnum = 0;
pub const VK_PRESENT_MODE_FIFO_KHR: VkEnum = 2;

#[derive(Clone, Copy, Debug, Default, PartialEq, Eq, Structural)]
pub struct VkSurfaceFormatKHR {
    pub format: VkEnum,
    pub color_space: VkEnum,
}

#[derive(Clone, Copy, Debug, Default, PartialEq, Eq, Structural)]
pub struct VkSurfaceCapabilitiesKHR {
    pub min_image_count: u32,
    pub max_image_count: u32,
    pub current_extent: VkExtent2D,
    pub min_image_extent: VkExtent2D,
    pub max_image_extent: VkExtent2D,
    pub max_image_array_layers: u32,
    pub supported_transforms: VkFlags,
    pub current_transform: VkFlags,
    pub supported_composite_alpha: VkFlags,
    pub supported_usage_flags: VkFlags,
}

pub const VK_MAX_MEMORY_TYPES: usize = 32;
pub const VK_MAX_MEMORY_HEAPS: usize = 16;
pub const VK_MEMORY_PROPERTY_DEVICE_LOCAL_BIT: VkFlags = 0x0000_0001;
pub const VK_MEMORY_PROPERTY_HOST_VISIBLE_BIT: VkFlags = 0x0000_0002;
pub const VK_MEMORY_PROPERTY_HOST_COHERENT_BIT: VkFlags = 0x0000_0004;

#[derive(Clone, Copy, Debug, Default, PartialEq, Eq, Structural)]
pub struct VkMemoryType {
    pub property_flags: VkFlags,
    pub heap_index: u32,
}

#[derive(Clone, Copy, Debug, Default, PartialEq, Eq, Structural)]
pub struct VkMemoryHeap {
    pub size: VkDeviceSize,
    pub flags: VkFlags,
}

/// What `vkGetPhysicalDeviceMemoryProperties` reports: the first
/// `memory_type_count` entries of `memory_types` are meaningful.
#[derive(Clone, Copy, Debug)]
pub struct VkPhysicalDeviceMemoryProperties {
    pub memory_type_count: u32,
    pub memory_types: [VkMemoryType; 32],
    pub memory_heap_count: u32,
    pub memory_heaps: [VkMemoryHeap; 16],
}

#[derive(Clone, Copy, Debug, Default, PartialEq, Eq, Structural)]
pub struct VkMemoryRequirements {
    pub size: VkDeviceSize,
    pub alignment: VkDeviceSize,
    pub memory_type_bits: u32,
}

// ---------------------------------------------------------------------------
// Images
// ---------------------------------------------------------------------------

pub const VK_IMAGE_ASPECT_COLOR_BIT: VkFlags = 0x0000_0001;
pub const VK_IMAGE_ASPECT_DEPTH_BIT: VkFlags = 0x0000_0002;
pub const VK_COMPONENT_SWIZZLE_IDENTITY: VkEnum = 0;

pub const VK_IMAGE_USAGE_TRANSFER_SRC_BIT: VkFlags = 0x0000_0001;
pub const VK_IMAGE_USAGE_TRANSFER_DST_BIT: VkFlags = 0x0000_0002;
pub const VK_IMAGE_USAGE_SAMPLED_BIT: VkFlags = 0x0000_0004;
pub const VK_IMAGE_USAGE_DEPTH_STENCIL_ATTACHMENT_BIT: VkFlags = 0x0000_0020;
pub const VK_IMAGE_TILING_OPTIMAL: VkEnum = 0;
pub const VK_SAMPLER_ADDRESS_MODE_REPEAT: VkEnum = 0;
pub const VK_PRIMITIVE_TOPOLOGY_TRIANGLE_LIST: VkEnum = 3;
pub const VK_POLYGON_MODE_FILL: VkEnum = 0;
pub const VK_CULL_MODE_BACK_BIT: VkFlags = 0x0000_0002;
pub const VK_FRONT_FACE_COUNTER_CLOCKWISE: VkEnum = 0;

pub const VK_IMAGE_LAYOUT_UNDEFINED: VkEnum = 0;
pub const VK_IMAGE_LAYOUT_COLOR_ATTACHMENT_OPTIMAL: VkEnum = 2;
pub const VK_IMAGE_LAYOUT_DEPTH_STENCIL_ATTACHMENT_OPTIMAL: VkEnum = 3;
pub const VK_IMAGE_LAYOUT_SHADER_READ_ONLY_OPTIMAL: VkEnum = 5;
pub const VK_IMAGE_LAYOUT_TRANSFER_SRC_OPTIMAL: VkEnum = 6;
pub const VK_IMAGE_LAYOUT_TRANSFER_DST_OPTIMAL: VkEnum = 7;
pub const VK_IMAGE_LAYOUT_PRESENT_SRC_KHR: VkEnum = 1_000_001_002;

pub const VK_ACCESS_SHADER_READ_BIT: VkFlags = 0x0000_0020;
pub const VK_ACCESS_COLOR_ATTACHMENT_WRITE_BIT: VkFlags = 0x0000_0100;
pub const VK_ACCESS_DEPTH_STENCIL_ATTACHMENT_WRITE_BIT: VkFlags = 0x0000_0400;
pub const VK_ACCESS_TRANSFER_READ_BIT: VkFlags = 0x0000_0800;
pub const VK_ACCESS_TRANSFER_WRITE_BIT: VkFlags = 0x0000_1000;

pub const VK_PIPELINE_STAGE_TOP_OF_PIPE_BIT: VkFlags = 0x0000_0001;
pub const VK_PIPELINE_STAGE_FRAGMENT_SHADER_BIT: VkFlags = 0x0000_0080;
pub const VK_PIPELINE_STAGE_EARLY_FRAGMENT_TESTS_BIT: VkFlags = 0x0000_0100;
pub const VK_PIPELINE_STAGE_LATE_FRAGMENT_TESTS_BIT: VkFlags = 0x0000_0200;
pub const VK_PIPELINE_STAGE_COLOR_ATTACHMENT_OUTPUT_BIT: VkFlags = 0x0000_0400;
pub const VK_PIPELINE_STAGE_TRANSFER_BIT: VkFlags = 0x0000_1000;

#[derive(Clone, Copy, Debug, Default, PartialEq, Eq, Structural)]
pub struct VkComponentMapping {
    pub r: VkEnum,
    pub g: VkEnum,
    pub b: VkEnum,
    pub a: VkEnum,
}

#[derive(Clone, Copy, Debug, Default, PartialEq, Eq, Structural)]
pub struct VkImageSubresourceRange {
    pub aspect_mask: VkFlags,
    pub base_mip_level: u32,
    pub level_count: u32,
    pub base_array_layer: u32,
    pub layer_count: u32,
}

#[derive(Clone, Copy, Debug, Default, PartialEq, Eq, Structural)]
pub struct VkImageSubresourceLayers {
    pub aspect_mask: VkFlags,
    pub mip_level: u32,
    pub base_array_layer: u32,
    pub layer_count: u32,
}

#[derive(Clone, Copy, Debug, Default, PartialEq, Eq, Structural)]
pub struct VkBufferImageCopy {
    pub buffer_offset: VkDeviceSize,
    pub buffer_row_length: u32,
    pub buffer_image_height: u32,
    pub image_subresource: VkImageSubresourceLayers,
    pub image_offset: VkOffset3D,
    pub image_extent: VkExtent3D,
}

// ---------------------------------------------------------------------------
// Render pass and pipeline state
// ---------------------------------------------------------------------------

pub const VK_SAMPLE_COUNT_1_BIT: VkFlags = 0x0000_0001;
pub const VK_ATTACHMENT_LOAD_OP_CLEAR: VkEnum = 1;
pub const VK_ATTACHMENT_LOAD_OP_DONT_CARE: VkEnum = 2;
pub const VK_ATTACHMENT_STORE_OP_STORE: VkEnum = 0;
pub const VK_ATTACHMENT_STORE_OP_DONT_CARE: VkEnum = 1;
pub const VK_SUBPASS_EXTERNAL: u32 = 0xFFFF_FFFF;

#[derive(Clone, Copy, Debug, Default, PartialEq, Eq, Structural)]
pub struct VkAttachmentDescription {
    pub flags: VkFlags,
    pub format: VkEnum,
    pub samples: VkFlags,
    pub load_op: VkEnum,
    pub store_op: VkEnum,
    pub stencil_load_op: VkEnum,
    pub stencil_store_op: VkEnum,
    pub initial_layout: VkEnum,
    pub final_layout: VkEnum,
}

#[derive(Clone, Copy, Debug, Default, PartialEq, Eq, Structural)]
pub struct VkAttachmentReference {
    pub attachment: u32,
    pub layout: VkEnum,
}

pub const VK_PIPELINE_BIND_POINT_GRAPHICS: VkEnum = 0;

/// `VkSubpassDescription` with its attachment lists as plain values. The C
/// structure points at arrays of references; a subpass of this renderer
/// has exactly one colour attachment and one depth attachment, and no input,
/// resolve or preserved ones, so the references are held directly.
#[derive(Clone, Copy, Debug, Default, PartialEq, Eq, Structural)]
pub struct VkSubpassDescription {
    pub flags: VkFlags,
    pub pipeline_bind_point: VkEnum,
    pub color_attachment: VkAttachmentReference,
    pub depth_stencil_attachment: VkAttachmentReference,
}

#[derive(Clone, Copy, Debug, Default, PartialEq, Eq, Structural)]
pub struct VkSubpassDependency {
    pub src_subpass: u32,
    pub dst_subpass: u32,
    pub src_stage_mask: VkFlags,
    pub dst_stage_mask: VkFlags,
    pub src_access_mask: VkFlags,
    pub dst_access_mask: VkFlags,
    pub dependency_flags: VkFlags,
}

pub const VK_COLOR_COMPONENT_R_BIT: VkFlags = 0x1;
pub const VK_COLOR_COMPONENT_G_BIT: VkFlags = 0x2;
pub const VK_COLOR_COMPONENT_B_BIT: VkFlags = 0x4;
pub const VK_COLOR_COMPONENT_A_BIT: VkFlags = 0x8;

#[derive(Clone, Copy, Debug, Default, PartialEq, Eq, Structural)]
pub struct VkPipelineColorBlendAttachmentState {
    pub blend_enable: VkBool32,
    pub src_color_blend_factor: VkEnum,
    pub dst_color_blend_factor: VkEnum,
    pub color_blend_op: VkEnum,
    pub src_alpha_blend_factor: VkEnum,
    pub dst_alpha_blend_factor: VkEnum,
    pub alpha_blend_op: VkEnum,
    pub color_write_mask: VkFlags,
}

pub const VK_VERTEX_INPUT_RATE_VERTEX: VkEnum = 0;
pub const VK_SHADER_STAGE_VERTEX_BIT: VkFlags = 0x0000_0001;
pub const VK_SHADER_STAGE_FRAGMENT_BIT: VkFlags = 0x0000_0010;

#[derive(Clone, Copy, Debug, Default, PartialEq, Eq, Structural)]
pub struct VkVertexInputBindingDescription {
    pub binding: u32,
    pub stride: u32,
    pub input_rate: VkEnum,
}

#[derive(Clone, Copy, Debug, Default, PartialEq, Eq, Structural)]
pub struct VkVertexInputAttributeDescription {
    pub location: u32,
    pub binding: u32,
    pub format: VkEnum,
    pub offset: u32,
}

#[derive(Clone, Copy, Debug, Default, PartialEq, Eq, Structural)]
pub struct VkPushConstantRange {
    pub stage_flags: VkFlags,
    pub offset: u32,
    pub size: u32,
}

pub const VK_STENCIL_OP_KEEP: VkEnum = 0;
pub const VK_COMPARE_OP_LESS: VkEnum = 1;
pub const VK_COMPARE_OP_ALWAYS: VkEnum = 7;

#[derive(Clone, Copy, Debug, Default, PartialEq, Eq, Structural)]
pub struct VkStencilOpState {
    pub fail_op: VkEnum,
    pub pass_op: VkEnum,
    pub depth_fail_op: VkEnum,
    pub compare_op: VkEnum,
    pub compare_mask: u32,
    pub write_mask: u32,
    pub reference: u32,
}

// ---------------------------------------------------------------------------
// Descriptors
// ---------------------------------------------------------------------------

pub const VK_DESCRIPTOR_TYPE_COMBINED_IMAGE_SAMPLER: VkEnum = 1;

/// One binding of a descriptor set layout. Immutable samplers are never used,
/// so the pointer to them is always null and not carried here.
#[derive(Clone, Copy, Debug, Default, PartialEq, Eq, Structural)]
pub struct VkDescriptorSetLayoutBinding {
    pub binding: u32,
    pub descriptor_type: VkEnum,
    pub descriptor_count: u32,
    pub stage_flags: VkFlags,
}

#[derive(Clone, Copy, Debug, Default, PartialEq, Eq, Structural)]
pub struct VkDescriptorPoolSize {
    pub descriptor_type: VkEnum,
    pub descriptor_count: u32,
}

#[derive(Clone, Copy, Debug, PartialEq, Eq, Structural)]
pub struct VkDescriptorImageInfo {
    pub sampler: VkSampler,
    pub image_view: VkImageView,
    pub image_layout: VkEnum,
}

/// What a 2D image is created as: the fields of `VkImageCreateInfo` that
/// are decided rather than fixed (the type is 2D, the image not shared
/// between queues).
#[derive(Clone, Copy, Debug, PartialEq, Eq, Structural)]
pub struct ImageDescription {
    pub format: VkEnum,
    pub width: u32,
    pub height: u32,
    pub depth: u32,
    pub mip_levels: u32,
    pub array_layers: u32,
    pub samples: VkFlags,
    pub tiling: VkEnum,
    pub usage: VkFlags,
    pub initial_layout: VkEnum,
}

} // verus!
