//! Filling a buffer from the CPU, as a state machine: create the buffer, ask
//! what memory it needs, allocate memory the CPU can write and the GPU sees
//! without a flush, bind it, map it and copy the data in. The backend performs
//! each action and reports what came of it; a failure releases exactly what
//! was created before it, and nothing else is done after it.

use vstd::prelude::*;
use crate::memory::{
    choose_memory_type, is_lowest_suitable_memory_type, is_suitable_memory_type, lemma_lowest_suitable_exists,
    spec_chosen_memory_type,
};
use crate::vk_types::{
    VkBuffer, VkDeviceMemory, VkDeviceSize, VkEnum, VkFlags, VkMemoryRequirements,
    VkPhysicalDeviceMemoryProperties, VK_MEMORY_PROPERTY_HOST_COHERENT_BIT,
    VK_MEMORY_PROPERTY_HOST_VISIBLE_BIT, VK_SUCCESS,
};

verus! {

/// The memory a CPU-filled buffer lives in: the CPU writes straight into it
/// and the GPU reads the same memory, with no staging copy and no flush.
pub const UPLOAD_MEMORY_PROPERTIES: VkFlags = VK_MEMORY_PROPERTY_HOST_VISIBLE_BIT
    | VK_MEMORY_PROPERTY_HOST_COHERENT_BIT;

/// Where an upload stands. `size` is the size of the data, in bytes.
#[derive(Clone, Copy, Debug, PartialEq, Eq, Structural)]
pub enum UploadState {
    /// Nothing done yet: a buffer of `usage` for `size` bytes is wanted.
    Start { size: VkDeviceSize, usage: VkFlags },
    /// Creating the buffer.
    CreatingBuffer { size: VkDeviceSize },
    /// Asking what memory `buffer` needs.
    QueryingRequirements { size: VkDeviceSize, buffer: VkBuffer },
    /// Allocating its memory.
    Allocating { size: VkDeviceSize, buffer: VkBuffer },
    /// Binding `memory` to `buffer`.
    Binding { size: VkDeviceSize, buffer: VkBuffer, memory: VkDeviceMemory },
    /// Mapping `memory` to copy the data in.
    Mapping { buffer: VkBuffer, memory: VkDeviceMemory },
    /// The buffer holds the data.
    Done,
    /// A step failed; what had been created was released.
    Failed,
}

/// Which step failed, with the result Vulkan gave where there is one.
#[derive(Clone, Copy, Debug, PartialEq, Eq, Structural)]
pub enum UploadFailure {
    CreateBuffer { result: VkEnum },
    /// No memory type the buffer may live in is host-visible and coherent.
    NoMemoryType { type_filter: u32 },
    Allocate { result: VkEnum },
    Bind { result: VkEnum },
    MapMemory { result: VkEnum },
}

/// What the backend reports after performing an action (or, for `Begin`,
/// before the first one).
#[derive(Clone, Copy, Debug, PartialEq, Eq, Structural)]
pub enum UploadEvent {
    Begin,
    BufferCreated { result: VkEnum, buffer: VkBuffer },
    RequirementsKnown { requirements: VkMemoryRequirements },
    MemoryAllocated { result: VkEnum, memory: VkDeviceMemory },
    MemoryBound { result: VkEnum },
    MemoryMapped { result: VkEnum },
}

/// What the backend does next.
#[derive(Clone, Copy, Debug, PartialEq, Eq, Structural)]
pub enum UploadAction {
    /// `vkCreateBuffer` of `size` bytes for `usage`, not shared between queues.
    CreateBuffer { size: VkDeviceSize, usage: VkFlags },
    /// `vkGetBufferMemoryRequirements`.
    QueryRequirements { buffer: VkBuffer },
    /// `vkAllocateMemory`.
    Allocate { allocation_size: VkDeviceSize, memory_type_index: u32 },
    /// `vkBindBufferMemory` at offset 0.
    BindMemory { buffer: VkBuffer, memory: VkDeviceMemory },
    /// `vkMapMemory` of the first `size` bytes.
    MapMemory { memory: VkDeviceMemory, size: VkDeviceSize },
    /// Copy the data into the mapped memory and unmap it: the buffer is ready.
    Finish { buffer: VkBuffer, memory: VkDeviceMemory },
    /// Free `memory` and destroy `buffer`, those of them that were created;
    /// the upload fails with `failure`.
    Fail { failure: UploadFailure, buffer: Option<VkBuffer>, memory: Option<VkDeviceMemory> },
}

/// The event `event` is the report of the action `state` was waiting on.
pub open spec fn spec_upload_accepts(state: UploadState, event: UploadEvent) -> bool {
    match (state, event) {
        (UploadState::Start { .. }, UploadEvent::Begin) => true,
        (UploadState::CreatingBuffer { .. }, UploadEvent::BufferCreated { .. }) => true,
        (UploadState::QueryingRequirements { .. }, UploadEvent::RequirementsKnown { .. }) => true,
        (UploadState::Allocating { .. }, UploadEvent::MemoryAllocated { .. }) => true,
        (UploadState::Binding { .. }, UploadEvent::MemoryBound { .. }) => true,
        (UploadState::Mapping { .. }, UploadEvent::MemoryMapped { .. }) => true,
        _ => false,
    }
}

/// The buffer an upload in `state` has created and still owns.
pub open spec fn spec_upload_buffer(state: UploadState) -> Option<VkBuffer> {
    match state {
        UploadState::QueryingRequirements { buffer, .. } => Some(buffer),
        UploadState::Allocating { buffer, .. } => Some(buffer),
        UploadState::Binding { buffer, .. } => Some(buffer),
        UploadState::Mapping { buffer, .. } => Some(buffer),
        _ => None,
    }
}

/// The memory an upload in `state` has allocated and still owns.
pub open spec fn spec_upload_memory(state: UploadState) -> Option<VkDeviceMemory> {
    match state {
        UploadState::Binding { memory, .. } => Some(memory),
        UploadState::Mapping { memory, .. } => Some(memory),
        _ => None,
    }
}

/// The transitions of an upload. A pair `spec_upload_accepts` refuses is no
/// transition; it is given as failing with nothing released.
pub open spec fn spec_upload_step(
    state: UploadState,
    event: UploadEvent,
    properties: VkPhysicalDeviceMemoryProperties,
) -> (UploadState, UploadAction) {
    match (state, event) {
        (UploadState::Start { size, usage }, UploadEvent::Begin) => (
            UploadState::CreatingBuffer { size },
            UploadAction::CreateBuffer { size, usage },
        ),
        (UploadState::CreatingBuffer { size }, UploadEvent::BufferCreated { result, buffer }) => if result
            == VK_SUCCESS {
            (UploadState::QueryingRequirements { size, buffer }, UploadAction::QueryRequirements { buffer })
        } else {
            (
                UploadState::Failed,
                UploadAction::Fail { failure: UploadFailure::CreateBuffer { result }, buffer: None, memory: None },
            )
        },
        (
            UploadState::QueryingRequirements { size, buffer },
            UploadEvent::RequirementsKnown { requirements },
        ) => match spec_chosen_memory_type(
            properties,
            requirements.memory_type_bits,
            UPLOAD_MEMORY_PROPERTIES,
        ) {
            Some(memory_type_index) => (
                UploadState::Allocating { size, buffer },
                UploadAction::Allocate { allocation_size: requirements.size, memory_type_index },
            ),
            None => (
                UploadState::Failed,
                UploadAction::Fail {
                    failure: UploadFailure::NoMemoryType { type_filter: requirements.memory_type_bits },
                    buffer: Some(buffer),
                    memory: None,
                },
            ),
        },
        (UploadState::Allocating { size, buffer }, UploadEvent::MemoryAllocated { result, memory }) => if result
            == VK_SUCCESS {
            (UploadState::Binding { size, buffer, memory }, UploadAction::BindMemory { buffer, memory })
        } else {
            (
                UploadState::Failed,
                UploadAction::Fail { failure: UploadFailure::Allocate { result }, buffer: Some(buffer), memory: None },
            )
        },
        (UploadState::Binding { size, buffer, memory }, UploadEvent::MemoryBound { result }) => if result
            == VK_SUCCESS {
            (UploadState::Mapping { buffer, memory }, UploadAction::MapMemory { memory, size })
        } else {
            (
                UploadState::Failed,
                UploadAction::Fail {
                    failure: UploadFailure::Bind { result },
                    buffer: Some(buffer),
                    memory: Some(memory),
                },
            )
        },
        (UploadState::Mapping { buffer, memory }, UploadEvent::MemoryMapped { result }) => if result
            == VK_SUCCESS {
            (UploadState::Done, UploadAction::Finish { buffer, memory })
        } else {
            (
                UploadState::Failed,
                UploadAction::Fail {
                    failure: UploadFailure::MapMemory { result },
                    buffer: Some(buffer),
                    memory: Some(memory),
                },
            )
        },
        _ => (
            UploadState::Failed,
            UploadAction::Fail { failure: UploadFailure::CreateBuffer { result: VK_SUCCESS }, buffer: None, memory: None },
        ),
    }
}

/// Whether `event` answers what `state` is waiting for.
pub fn upload_accepts(state: UploadState, event: UploadEvent) -> (accepted: bool)
    ensures
        accepted == spec_upload_accepts(state, event),
{
    match (state, event) {
        (UploadState::Start { .. }, UploadEvent::Begin) => true,
        (UploadState::CreatingBuffer { .. }, UploadEvent::BufferCreated { .. }) => true,
        (UploadState::QueryingRequirements { .. }, UploadEvent::RequirementsKnown { .. }) => true,
        (UploadState::Allocating { .. }, UploadEvent::MemoryAllocated { .. }) => true,
        (UploadState::Binding { .. }, UploadEvent::MemoryBound { .. }) => true,
        (UploadState::Mapping { .. }, UploadEvent::MemoryMapped { .. }) => true,
        _ => false,
    }
}

/// The next state and the action to perform, given what the last action
/// came to. The device reports at most 32 memory types.
pub fn upload_step(
    state: UploadState,
    event: UploadEvent,
    memory_properties: &VkPhysicalDeviceMemoryProperties,
) -> (next: (UploadState, UploadAction))
    requires
        spec_upload_accepts(state, event),
        memory_properties.memory_type_count <= 32,
    ensures
        next == spec_upload_step(state, event, *memory_properties),
{
    match (state, event) {
        (UploadState::Start { size, usage }, UploadEvent::Begin) => (
            UploadState::CreatingBuffer { size },
            UploadAction::CreateBuffer { size, usage },
        ),
        (UploadState::CreatingBuffer { size }, UploadEvent::BufferCreated { result, buffer }) => {
            if result == VK_SUCCESS {
                (UploadState::QueryingRequirements { size, buffer }, UploadAction::QueryRequirements { buffer })
            } else {
                (
                    UploadState::Failed,
                    UploadAction::Fail {
                        failure: UploadFailure::CreateBuffer { result },
                        buffer: None,
                        memory: None,
                    },
                )
            }
        },
        (UploadState::QueryingRequirements { size, buffer }, UploadEvent::RequirementsKnown { requirements }) => {
            match choose_memory_type(memory_properties, requirements.memory_type_bits, UPLOAD_MEMORY_PROPERTIES) {
                Some(memory_type_index) => (
                    UploadState::Allocating { size, buffer },
                    UploadAction::Allocate { allocation_size: requirements.size, memory_type_index },
                ),
                None => (
                    UploadState::Failed,
                    UploadAction::Fail {
                        failure: UploadFailure::NoMemoryType { type_filter: requirements.memory_type_bits },
                        buffer: Some(buffer),
                        memory: None,
                    },
                ),
            }
        },
        (UploadState::Allocating { size, buffer }, UploadEvent::MemoryAllocated { result, memory }) => {
            if result == VK_SUCCESS {
                (UploadState::Binding { size, buffer, memory }, UploadAction::BindMemory { buffer, memory })
            } else {
                (
                    UploadState::Failed,
                    UploadAction::Fail {
                        failure: UploadFailure::Allocate { result },
                        buffer: Some(buffer),
                        memory: None,
                    },
                )
            }
        },
        (UploadState::Binding { size, buffer, memory }, UploadEvent::MemoryBound { result }) => {
            if result == VK_SUCCESS {
                (UploadState::Mapping { buffer, memory }, UploadAction::MapMemory { memory, size })
            } else {
                (
                    UploadState::Failed,
                    UploadAction::Fail {
                        failure: UploadFailure::Bind { result },
                        buffer: Some(buffer),
                        memory: Some(memory),
                    },
                )
            }
        },
        (UploadState::Mapping { buffer, memory }, UploadEvent::MemoryMapped { result }) => {
            if result == VK_SUCCESS {
                (UploadState::Done, UploadAction::Finish { buffer, memory })
            } else {
                (
                    UploadState::Failed,
                    UploadAction::Fail {
                        failure: UploadFailure::MapMemory { result },
                        buffer: Some(buffer),
                        memory: Some(memory),
                    },
                )
            }
        },
        _ => (
            UploadState::Failed,
            UploadAction::Fail { failure: UploadFailure::CreateBuffer { result: VK_SUCCESS }, buffer: None, memory: None },
        ),
    }
}

/// Every step keeps track of what exists: a failing step releases exactly the
/// buffer and memory created before it, and any other step owns what it owned
/// before plus what its event reports created.
pub proof fn law_upload_releases_what_it_created(
    state: UploadState,
    event: UploadEvent,
    properties: VkPhysicalDeviceMemoryProperties,
)
    requires
        spec_upload_accepts(state, event),
    ensures
        ({
            let (next, action) = spec_upload_step(state, event, properties);
            &&& next == UploadState::Failed ==> (action matches UploadAction::Fail { buffer, memory, .. }
                && buffer == spec_upload_buffer(state) && memory == spec_upload_memory(state))
            &&& next != UploadState::Failed && next != UploadState::Done ==> spec_upload_buffer(next) == (
            match event {
                UploadEvent::BufferCreated { buffer, .. } => Some(buffer),
                _ => spec_upload_buffer(state),
            })
            &&& next != UploadState::Failed && next != UploadState::Done ==> spec_upload_memory(next) == (
            match event {
                UploadEvent::MemoryAllocated { memory, .. } => Some(memory),
                _ => spec_upload_memory(state),
            })
            &&& next == UploadState::Done ==> action == UploadAction::Finish {
                buffer: spec_upload_buffer(state)->0,
                memory: spec_upload_memory(state)->0,
            }
        }),
{
}

/// The actions of an upload driven by `events` from `state`, one per event;
/// events past the end of the upload, or out of order, are not acted on.
pub open spec fn spec_upload_run(
    state: UploadState,
    events: Seq<UploadEvent>,
    properties: VkPhysicalDeviceMemoryProperties,
) -> Seq<UploadAction>
    decreases events.len(),
{
    if events.len() == 0 || !spec_upload_accepts(state, events[0]) {
        Seq::empty()
    } else {
        let (next, action) = spec_upload_step(state, events[0], properties);
        seq![action] + spec_upload_run(next, events.drop_first(), properties)
    }
}

/// The events of an upload in which the backend reports, in turn, the
/// creation of `buffer` with `created`, the requirements `requirements`, the
/// allocation of `memory` with `allocated`, the binding with `bound` and the
/// mapping with `mapped`.
pub open spec fn upload_events(
    created: VkEnum,
    buffer: VkBuffer,
    requirements: VkMemoryRequirements,
    allocated: VkEnum,
    memory: VkDeviceMemory,
    bound: VkEnum,
    mapped: VkEnum,
) -> Seq<UploadEvent> {
    seq![
        UploadEvent::Begin,
        UploadEvent::BufferCreated { result: created, buffer },
        UploadEvent::RequirementsKnown { requirements },
        UploadEvent::MemoryAllocated { result: allocated, memory },
        UploadEvent::MemoryBound { result: bound },
        UploadEvent::MemoryMapped { result: mapped },
    ]
}

/// An upload ends in one action that either hands out the buffer or fails,
/// and a failure destroys the buffer exactly when its creation succeeded and
/// frees the memory exactly when its allocation was reached and succeeded:
/// nothing created is left behind, nothing else is released. It hands out
/// the buffer exactly when every call succeeded and some memory type suits.
pub proof fn law_upload_failure_releases_everything(
    size: VkDeviceSize,
    usage: VkFlags,
    created: VkEnum,
    buffer: VkBuffer,
    requirements: VkMemoryRequirements,
    allocated: VkEnum,
    memory: VkDeviceMemory,
    bound: VkEnum,
    mapped: VkEnum,
    properties: VkPhysicalDeviceMemoryProperties,
)
    ensures
        ({
            let actions = spec_upload_run(
                UploadState::Start { size, usage },
                upload_events(created, buffer, requirements, allocated, memory, bound, mapped),
                properties,
            );
            let suits = exists|i: int|
                is_suitable_memory_type(properties, requirements.memory_type_bits, UPLOAD_MEMORY_PROPERTIES, i);
            let buffer_made = created == VK_SUCCESS;
            let memory_made = buffer_made && suits && allocated == VK_SUCCESS;
            &&& actions.len() >= 2
            &&& (actions.last() == UploadAction::Finish { buffer, memory }) <==> (memory_made && bound
                == VK_SUCCESS && mapped == VK_SUCCESS)
            &&& !(memory_made && bound == VK_SUCCESS && mapped == VK_SUCCESS) ==> (
            actions.last() matches UploadAction::Fail { buffer: released_buffer, memory: released_memory, .. }
                && released_buffer == (if buffer_made {
                Some(buffer)
            } else {
                None
            }) && released_memory == (if memory_made {
                Some(memory)
            } else {
                None
            }))
        }),
{
    let events = upload_events(created, buffer, requirements, allocated, memory, bound, mapped);
    let e1 = events.drop_first();
    let e2 = e1.drop_first();
    let e3 = e2.drop_first();
    let e4 = e3.drop_first();
    let e5 = e4.drop_first();
    let e6 = e5.drop_first();
    assert(e6.len() == 0);
    assert(e1[0] == UploadEvent::BufferCreated { result: created, buffer });
    assert(e2[0] == UploadEvent::RequirementsKnown { requirements });
    assert(e3[0] == UploadEvent::MemoryAllocated { result: allocated, memory });
    assert(e4[0] == UploadEvent::MemoryBound { result: bound });
    assert(e5[0] == UploadEvent::MemoryMapped { result: mapped });
    reveal_with_fuel(spec_upload_run, 7);
    let bits = requirements.memory_type_bits;
    let r5 = spec_upload_run(UploadState::Mapping { buffer, memory }, e5, properties);
    let r4 = spec_upload_run(UploadState::Binding { size, buffer, memory }, e4, properties);
    let r3 = spec_upload_run(UploadState::Allocating { size, buffer }, e3, properties);
    let r2 = spec_upload_run(UploadState::QueryingRequirements { size, buffer }, e2, properties);
    let r1 = spec_upload_run(UploadState::CreatingBuffer { size }, e1, properties);
    let r0 = spec_upload_run(UploadState::Start { size, usage }, events, properties);
    assert(spec_upload_run(UploadState::Done, e6, properties) =~= Seq::<UploadAction>::empty());
    assert(spec_upload_run(UploadState::Failed, e6, properties) =~= Seq::<UploadAction>::empty());
    assert(spec_upload_run(UploadState::Failed, e5, properties) =~= Seq::<UploadAction>::empty());
    assert(spec_upload_run(UploadState::Failed, e4, properties) =~= Seq::<UploadAction>::empty());
    assert(spec_upload_run(UploadState::Failed, e3, properties) =~= Seq::<UploadAction>::empty());
    assert(spec_upload_run(UploadState::Failed, e2, properties) =~= Seq::<UploadAction>::empty());
    assert(r0 =~= seq![UploadAction::CreateBuffer { size, usage }] + r1);
    if created == VK_SUCCESS {
        assert(r1 =~= seq![UploadAction::QueryRequirements { buffer }] + r2);
        if exists|i: int| is_suitable_memory_type(properties, bits, UPLOAD_MEMORY_PROPERTIES, i) {
            let w = choose|i: int| is_suitable_memory_type(properties, bits, UPLOAD_MEMORY_PROPERTIES, i);
            lemma_lowest_suitable_exists(properties, bits, UPLOAD_MEMORY_PROPERTIES, w);
            let t = choose|i: int| is_lowest_suitable_memory_type(properties, bits, UPLOAD_MEMORY_PROPERTIES, i);
            assert(0 <= t < 32);
            assert(r2 =~= seq![
                UploadAction::Allocate { allocation_size: requirements.size, memory_type_index: t as u32 },
            ] + r3);
            if allocated == VK_SUCCESS {
                assert(r3 =~= seq![UploadAction::BindMemory { buffer, memory }] + r4);
                if bound == VK_SUCCESS {
                    assert(r4 =~= seq![UploadAction::MapMemory { memory, size }] + r5);
                }
            }
        }
    }
}

/// When every call succeeds and some memory type suits, the upload creates
/// the buffer as asked, allocates as much as the device asks in the lowest
/// memory type the buffer may live in that is host-visible and host-coherent,
/// binds that memory to that buffer, maps the data's size of it, and hands
/// out the buffer with that memory.
pub proof fn law_upload_binds_host_coherent_memory(
    size: VkDeviceSize,
    usage: VkFlags,
    buffer: VkBuffer,
    requirements: VkMemoryRequirements,
    memory: VkDeviceMemory,
    properties: VkPhysicalDeviceMemoryProperties,
)
    requires
        exists|i: int|
            is_suitable_memory_type(properties, requirements.memory_type_bits, UPLOAD_MEMORY_PROPERTIES, i),
    ensures
        ({
            let actions = spec_upload_run(
                UploadState::Start { size, usage },
                upload_events(VK_SUCCESS, buffer, requirements, VK_SUCCESS, memory, VK_SUCCESS, VK_SUCCESS),
                properties,
            );
            &&& actions.len() == 6
            &&& actions[0] == UploadAction::CreateBuffer { size, usage }
            &&& actions[1] == UploadAction::QueryRequirements { buffer }
            &&& actions[2] matches UploadAction::Allocate { allocation_size, memory_type_index }
                && allocation_size == requirements.size && is_lowest_suitable_memory_type(
                properties,
                requirements.memory_type_bits,
                UPLOAD_MEMORY_PROPERTIES,
                memory_type_index as int,
            )
            &&& actions[3] == UploadAction::BindMemory { buffer, memory }
            &&& actions[4] == UploadAction::MapMemory { memory, size }
            &&& actions[5] == UploadAction::Finish { buffer, memory }
        }),
{
    let events = upload_events(VK_SUCCESS, buffer, requirements, VK_SUCCESS, memory, VK_SUCCESS, VK_SUCCESS);
    let bits = requirements.memory_type_bits;
    let witness = choose|i: int| is_suitable_memory_type(properties, bits, UPLOAD_MEMORY_PROPERTIES, i);
    lemma_lowest_suitable_exists(properties, bits, UPLOAD_MEMORY_PROPERTIES, witness);
    let t = choose|i: int| is_lowest_suitable_memory_type(properties, bits, UPLOAD_MEMORY_PROPERTIES, i);
    assert(is_lowest_suitable_memory_type(properties, bits, UPLOAD_MEMORY_PROPERTIES, t));
    assert(0 <= t < 32);
    let index = t as u32;
    assert(index as int == t);
    let e1 = events.drop_first();
    let e2 = e1.drop_first();
    let e3 = e2.drop_first();
    let e4 = e3.drop_first();
    let e5 = e4.drop_first();
    let e6 = e5.drop_first();
    assert(e6.len() == 0);
    assert(e1[0] == UploadEvent::BufferCreated { result: VK_SUCCESS, buffer });
    assert(e2[0] == UploadEvent::RequirementsKnown { requirements });
    assert(e3[0] == UploadEvent::MemoryAllocated { result: VK_SUCCESS, memory });
    assert(e4[0] == UploadEvent::MemoryBound { result: VK_SUCCESS });
    assert(e5[0] == UploadEvent::MemoryMapped { result: VK_SUCCESS });
    reveal_with_fuel(spec_upload_run, 7);
    assert(spec_upload_run(UploadState::Done, e6, properties) =~= Seq::<UploadAction>::empty());
    let r5 = spec_upload_run(UploadState::Mapping { buffer, memory }, e5, properties);
    let r4 = spec_upload_run(UploadState::Binding { size, buffer, memory }, e4, properties);
    let r3 = spec_upload_run(UploadState::Allocating { size, buffer }, e3, properties);
    let r2 = spec_upload_run(UploadState::QueryingRequirements { size, buffer }, e2, properties);
    let r1 = spec_upload_run(UploadState::CreatingBuffer { size }, e1, properties);
    let r0 = spec_upload_run(UploadState::Start { size, usage }, events, properties);
    assert(r5 =~= seq![UploadAction::Finish { buffer, memory }]);
    assert(r4 =~= seq![UploadAction::MapMemory { memory, size }] + r5);
    assert(r3 =~= seq![UploadAction::BindMemory { buffer, memory }] + r4);
    assert(r2 =~= seq![
        UploadAction::Allocate { allocation_size: requirements.size, memory_type_index: index },
    ] + r3);
    assert(r1 =~= seq![UploadAction::QueryRequirements { buffer }] + r2);
    assert(r0 =~= seq![UploadAction::CreateBuffer { size, usage }] + r1);
}

} // verus!
