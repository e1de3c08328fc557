use xd_engine::depth::{
    depth_accepts, depth_image_description, depth_step, depth_view_range, DepthAction, DepthEvent, DepthFailure,
    DepthState,
};
use xd_engine::vk_types::{
    ImageDescription,    VkDeviceMemory, VkExtent2D, VkFlags, VkImage, VkImageView, VkMemoryHeap, VkMemoryRequirements, VkMemoryType,
    VkPhysicalDeviceMemoryProperties, VK_ERROR_OUT_OF_DEVICE_MEMORY, VK_FORMAT_D32_SFLOAT, VK_IMAGE_LAYOUT_UNDEFINED,
    VK_IMAGE_TILING_OPTIMAL, VK_IMAGE_USAGE_DEPTH_STENCIL_ATTACHMENT_BIT, VK_MAX_MEMORY_HEAPS, VK_MAX_MEMORY_TYPES,
    VK_MEMORY_PROPERTY_DEVICE_LOCAL_BIT, VK_MEMORY_PROPERTY_HOST_VISIBLE_BIT, VK_SAMPLE_COUNT_1_BIT, VK_SUCCESS,
};

fn properties_with(flags: &[VkFlags]) -> VkPhysicalDeviceMemoryProperties {
    let mut memory_types = [VkMemoryType::default(); VK_MAX_MEMORY_TYPES];
    for (i, &f) in flags.iter().enumerate() {
        memory_types[i] = VkMemoryType { property_flags: f, heap_index: 0 };
    }
    VkPhysicalDeviceMemoryProperties {
        memory_type_count: flags.len() as u32,
        memory_types,
        memory_heap_count: 0,
        memory_heaps: [VkMemoryHeap::default(); VK_MAX_MEMORY_HEAPS],
    }
}

const IMAGE: VkImage = VkImage(0x1A);
const MEMORY: VkDeviceMemory = VkDeviceMemory(0x2B);
const VIEW: VkImageView = VkImageView(0x3C);
const EXTENT: VkExtent2D = VkExtent2D { width: 800, height: 600 };

fn run(props: &VkPhysicalDeviceMemoryProperties, events: &[DepthEvent]) -> Vec<DepthAction> {
    let mut state = DepthState::Start { extent: EXTENT };
    let mut actions = Vec::new();
    for &event in events {
        assert!(depth_accepts(state, event));
        let (next, action) = depth_step(state, event, props);
        state = next;
        actions.push(action);
    }
    actions
}

#[test]
fn the_depth_image_is_d32_undefined_and_a_depth_attachment() {
    assert_eq!(
        depth_image_description(EXTENT),
        ImageDescription {
            format: VK_FORMAT_D32_SFLOAT,
            width: 800,
            height: 600,
            depth: 1,
            mip_levels: 1,
            array_layers: 1,
            samples: VK_SAMPLE_COUNT_1_BIT,
            tiling: VK_IMAGE_TILING_OPTIMAL,
            usage: VK_IMAGE_USAGE_DEPTH_STENCIL_ATTACHMENT_BIT,
            initial_layout: VK_IMAGE_LAYOUT_UNDEFINED,
        }
    );
    assert_eq!((VK_FORMAT_D32_SFLOAT, VK_IMAGE_USAGE_DEPTH_STENCIL_ATTACHMENT_BIT), (126, 0x20));
}

#[test]
fn a_successful_creation_uses_the_lowest_device_local_type() {
    // Type 0 is host-visible only; type 1 is the first device-local one.
    let props = properties_with(&[
        VK_MEMORY_PROPERTY_HOST_VISIBLE_BIT,
        VK_MEMORY_PROPERTY_DEVICE_LOCAL_BIT,
        VK_MEMORY_PROPERTY_DEVICE_LOCAL_BIT,
    ]);
    let actions = run(
        &props,
        &[
            DepthEvent::Begin,
            DepthEvent::ImageCreated { result: VK_SUCCESS, image: IMAGE },
            DepthEvent::RequirementsKnown {
                requirements: VkMemoryRequirements { size: 1_920_000, alignment: 256, memory_type_bits: 0b111 },
            },
            DepthEvent::MemoryAllocated { result: VK_SUCCESS, memory: MEMORY },
            DepthEvent::MemoryBound { result: VK_SUCCESS },
            DepthEvent::ViewCreated { result: VK_SUCCESS, view: VIEW },
        ],
    );
    assert_eq!(
        actions,
        vec![
            DepthAction::CreateImage { description: depth_image_description(EXTENT) },
            DepthAction::QueryRequirements { image: IMAGE },
            DepthAction::Allocate { allocation_size: 1_920_000, memory_type_index: 1 },
            DepthAction::BindMemory { image: IMAGE, memory: MEMORY },
            DepthAction::CreateView { image: IMAGE, format: VK_FORMAT_D32_SFLOAT, range: depth_view_range() },
            DepthAction::Finish { view: VIEW, image: IMAGE, memory: MEMORY },
        ]
    );
}

#[test]
fn without_device_local_memory_the_image_is_destroyed() {
    let props = properties_with(&[VK_MEMORY_PROPERTY_HOST_VISIBLE_BIT]);
    let actions = run(
        &props,
        &[
            DepthEvent::Begin,
            DepthEvent::ImageCreated { result: VK_SUCCESS, image: IMAGE },
            DepthEvent::RequirementsKnown {
                requirements: VkMemoryRequirements { size: 16, alignment: 16, memory_type_bits: 0b1 },
            },
        ],
    );
    assert_eq!(
        actions[2],
        DepthAction::Fail { failure: DepthFailure::NoMemoryType { type_filter: 0b1 }, image: Some(IMAGE), memory: None }
    );
}

#[test]
fn a_failed_view_frees_the_memory_and_destroys_the_image() {
    let props = properties_with(&[VK_MEMORY_PROPERTY_DEVICE_LOCAL_BIT]);
    let actions = run(
        &props,
        &[
            DepthEvent::Begin,
            DepthEvent::ImageCreated { result: VK_SUCCESS, image: IMAGE },
            DepthEvent::RequirementsKnown {
                requirements: VkMemoryRequirements { size: 16, alignment: 16, memory_type_bits: 0b1 },
            },
            DepthEvent::MemoryAllocated { result: VK_SUCCESS, memory: MEMORY },
            DepthEvent::MemoryBound { result: VK_SUCCESS },
            DepthEvent::ViewCreated { result: VK_ERROR_OUT_OF_DEVICE_MEMORY, view: VIEW },
        ],
    );
    assert_eq!(
        actions[5],
        DepthAction::Fail {
            failure: DepthFailure::CreateView { result: VK_ERROR_OUT_OF_DEVICE_MEMORY },
            image: Some(IMAGE),
            memory: Some(MEMORY),
        }
    );
}

#[test]
fn a_failed_image_creation_releases_nothing() {
    let props = properties_with(&[VK_MEMORY_PROPERTY_DEVICE_LOCAL_BIT]);
    let actions = run(
        &props,
        &[DepthEvent::Begin, DepthEvent::ImageCreated { result: VK_ERROR_OUT_OF_DEVICE_MEMORY, image: IMAGE }],
    );
    assert_eq!(
        actions[1],
        DepthAction::Fail {
            failure: DepthFailure::CreateImage { result: VK_ERROR_OUT_OF_DEVICE_MEMORY },
            image: None,
            memory: None,
        }
    );
}
