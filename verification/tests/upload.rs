use xd_engine::upload::{
    upload_accepts, upload_step, UploadAction, UploadEvent, UploadFailure, UploadState, UPLOAD_MEMORY_PROPERTIES,
};
use xd_engine::vk_types::{
    VkBuffer, VkDeviceMemory, VkFlags, VkMemoryHeap, VkMemoryRequirements, VkMemoryType,
    VkPhysicalDeviceMemoryProperties, VK_ERROR_OUT_OF_DEVICE_MEMORY, VK_MAX_MEMORY_HEAPS, VK_MAX_MEMORY_TYPES,
    VK_MEMORY_PROPERTY_DEVICE_LOCAL_BIT, VK_MEMORY_PROPERTY_HOST_COHERENT_BIT, VK_MEMORY_PROPERTY_HOST_VISIBLE_BIT,
    VK_SUCCESS,
};

fn properties_with(flags: &[VkFlags]) -> VkPhysicalDeviceMemoryProperties {
    let mut memory_types = [VkMemoryType::default(); VK_MAX_MEMORY_TYPES];
    for (i, &f) in flags.iter().enumerate() {
        memory_types[i] = VkMemoryType { property_flags: f, heap_index: 0 };
    }
    VkPhysicalDeviceMemoryProperties {
        memory_type_count: flags.len() as u32,
        memory_types,
        memory_heap_count: 0,
        memory_heaps: [VkMemoryHeap::default(); VK_MAX_MEMORY_HEAPS],
    }
}

const BUFFER: VkBuffer = VkBuffer(0xB0);
const MEMORY: VkDeviceMemory = VkDeviceMemory(0xE0);

/// Runs the machine over `events` and collects the actions.
fn run(props: &VkPhysicalDeviceMemoryProperties, events: &[UploadEvent]) -> Vec<UploadAction> {
    let mut state = UploadState::Start { size: 48, usage: 0x80 };
    let mut actions = Vec::new();
    for &event in events {
        assert!(upload_accepts(state, event));
        let (next, action) = upload_step(state, event, props);
        state = next;
        actions.push(action);
    }
    actions
}

fn requirements(bits: u32) -> VkMemoryRequirements {
    VkMemoryRequirements { size: 64, alignment: 16, memory_type_bits: bits }
}

#[test]
fn the_upload_memory_is_host_visible_and_coherent() {
    assert_eq!(UPLOAD_MEMORY_PROPERTIES, VK_MEMORY_PROPERTY_HOST_VISIBLE_BIT | VK_MEMORY_PROPERTY_HOST_COHERENT_BIT);
}

#[test]
fn a_successful_upload_binds_the_lowest_host_coherent_type() {
    let coherent = VK_MEMORY_PROPERTY_HOST_VISIBLE_BIT | VK_MEMORY_PROPERTY_HOST_COHERENT_BIT;
    // Type 0 is device-local only, type 1 host-visible but not coherent,
    // types 2 and 3 both suit: type 2 is chosen.
    let props = properties_with(&[
        VK_MEMORY_PROPERTY_DEVICE_LOCAL_BIT,
        VK_MEMORY_PROPERTY_HOST_VISIBLE_BIT,
        coherent,
        coherent | VK_MEMORY_PROPERTY_DEVICE_LOCAL_BIT,
    ]);
    let actions = run(
        &props,
        &[
            UploadEvent::Begin,
            UploadEvent::BufferCreated { result: VK_SUCCESS, buffer: BUFFER },
            UploadEvent::RequirementsKnown { requirements: requirements(0b1111) },
            UploadEvent::MemoryAllocated { result: VK_SUCCESS, memory: MEMORY },
            UploadEvent::MemoryBound { result: VK_SUCCESS },
            UploadEvent::MemoryMapped { result: VK_SUCCESS },
        ],
    );
    assert_eq!(
        actions,
        vec![
            UploadAction::CreateBuffer { size: 48, usage: 0x80 },
            UploadAction::QueryRequirements { buffer: BUFFER },
            UploadAction::Allocate { allocation_size: 64, memory_type_index: 2 },
            UploadAction::BindMemory { buffer: BUFFER, memory: MEMORY },
            UploadAction::MapMemory { memory: MEMORY, size: 48 },
            UploadAction::Finish { buffer: BUFFER, memory: MEMORY },
        ]
    );
}

#[test]
fn a_failed_creation_releases_nothing() {
    let props = properties_with(&[VK_MEMORY_PROPERTY_HOST_VISIBLE_BIT | VK_MEMORY_PROPERTY_HOST_COHERENT_BIT]);
    let actions = run(
        &props,
        &[UploadEvent::Begin, UploadEvent::BufferCreated { result: VK_ERROR_OUT_OF_DEVICE_MEMORY, buffer: BUFFER }],
    );
    assert_eq!(
        actions[1],
        UploadAction::Fail {
            failure: UploadFailure::CreateBuffer { result: VK_ERROR_OUT_OF_DEVICE_MEMORY },
            buffer: None,
            memory: None,
        }
    );
}

#[test]
fn no_suitable_memory_type_destroys_the_buffer() {
    let props = properties_with(&[VK_MEMORY_PROPERTY_DEVICE_LOCAL_BIT]);
    let actions = run(
        &props,
        &[
            UploadEvent::Begin,
            UploadEvent::BufferCreated { result: VK_SUCCESS, buffer: BUFFER },
            UploadEvent::RequirementsKnown { requirements: requirements(0b1) },
        ],
    );
    assert_eq!(
        actions[2],
        UploadAction::Fail {
            failure: UploadFailure::NoMemoryType { type_filter: 0b1 },
            buffer: Some(BUFFER),
            memory: None,
        }
    );
}

#[test]
fn a_failed_allocation_destroys_the_buffer() {
    let props = properties_with(&[VK_MEMORY_PROPERTY_HOST_VISIBLE_BIT | VK_MEMORY_PROPERTY_HOST_COHERENT_BIT]);
    let actions = run(
        &props,
        &[
            UploadEvent::Begin,
            UploadEvent::BufferCreated { result: VK_SUCCESS, buffer: BUFFER },
            UploadEvent::RequirementsKnown { requirements: requirements(0b1) },
            UploadEvent::MemoryAllocated { result: VK_ERROR_OUT_OF_DEVICE_MEMORY, memory: MEMORY },
        ],
    );
    assert_eq!(
        actions[3],
        UploadAction::Fail {
            failure: UploadFailure::Allocate { result: VK_ERROR_OUT_OF_DEVICE_MEMORY },
            buffer: Some(BUFFER),
            memory: None,
        }
    );
}

#[test]
fn a_failed_bind_or_map_frees_the_memory_and_destroys_the_buffer() {
    let props = properties_with(&[VK_MEMORY_PROPERTY_HOST_VISIBLE_BIT | VK_MEMORY_PROPERTY_HOST_COHERENT_BIT]);
    let prefix = [
        UploadEvent::Begin,
        UploadEvent::BufferCreated { result: VK_SUCCESS, buffer: BUFFER },
        UploadEvent::RequirementsKnown { requirements: requirements(0b1) },
        UploadEvent::MemoryAllocated { result: VK_SUCCESS, memory: MEMORY },
    ];
    let mut bind_fails = prefix.to_vec();
    bind_fails.push(UploadEvent::MemoryBound { result: VK_ERROR_OUT_OF_DEVICE_MEMORY });
    assert_eq!(
        run(&props, &bind_fails)[4],
        UploadAction::Fail {
            failure: UploadFailure::Bind { result: VK_ERROR_OUT_OF_DEVICE_MEMORY },
            buffer: Some(BUFFER),
            memory: Some(MEMORY),
        }
    );
    let mut map_fails = prefix.to_vec();
    map_fails.push(UploadEvent::MemoryBound { result: VK_SUCCESS });
    map_fails.push(UploadEvent::MemoryMapped { result: VK_ERROR_OUT_OF_DEVICE_MEMORY });
    assert_eq!(
        run(&props, &map_fails)[5],
        UploadAction::Fail {
            failure: UploadFailure::MapMemory { result: VK_ERROR_OUT_OF_DEVICE_MEMORY },
            buffer: Some(BUFFER),
            memory: Some(MEMORY),
        }
    );
}

#[test]
fn an_event_out_of_order_is_not_accepted() {
    assert!(!upload_accepts(UploadState::Start { size: 1, usage: 1 }, UploadEvent::MemoryBound { result: VK_SUCCESS }));
    assert!(!upload_accepts(UploadState::Done, UploadEvent::Begin));
}
