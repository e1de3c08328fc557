//! The depth buffer: one image for the whole renderer, since a single frame
//! is in flight and depth never goes to the screen. The GPU alone fills it,
//! so it is created in `VK_IMAGE_LAYOUT_UNDEFINED` and the render pass moves
//! it to its attachment layout; its memory is device-local. Creating it is a
//! state machine like the buffer upload's: image, memory, binding, view, and
//! a failure releases exactly what was created before it.

use vstd::prelude::*;
use crate::memory::{
    choose_memory_type, is_lowest_suitable_memory_type, is_suitable_memory_type, lemma_lowest_suitable_exists,
    spec_chosen_memory_type,
};
use crate::vk_types::{
    ImageDescription, VkDeviceMemory, VkDeviceSize, VkEnum, VkExtent2D, VkImage, VkImageSubresourceRange, VkImageView,
    VkMemoryRequirements, VkPhysicalDeviceMemoryProperties, VK_FORMAT_D32_SFLOAT, VK_IMAGE_ASPECT_DEPTH_BIT,
    VK_IMAGE_LAYOUT_UNDEFINED, VK_IMAGE_TILING_OPTIMAL, VK_IMAGE_USAGE_DEPTH_STENCIL_ATTACHMENT_BIT,
    VK_MEMORY_PROPERTY_DEVICE_LOCAL_BIT, VK_SAMPLE_COUNT_1_BIT, VK_SUCCESS,
};

verus! {

pub struct DepthBuffer {
    pub view: VkImageView,
    image: VkImage,
    memory: VkDeviceMemory,
}

impl DepthBuffer {
    pub closed spec fn spec_view(&self) -> VkImageView {
        self.view
    }

    pub closed spec fn spec_image(&self) -> VkImage {
        self.image
    }

    pub closed spec fn spec_memory(&self) -> VkDeviceMemory {
        self.memory
    }

    pub fn new(view: VkImageView, image: VkImage, memory: VkDeviceMemory) -> (depth: Self)
        ensures
            depth.spec_view() == view,
            depth.spec_image() == image,
            depth.spec_memory() == memory,
    {
        DepthBuffer { view, image, memory }
    }

    pub fn image(&self) -> (image: VkImage)
        ensures
            image == self.spec_image(),
    {
        self.image
    }

    pub fn memory(&self) -> (memory: VkDeviceMemory)
        ensures
            memory == self.spec_memory(),
    {
        self.memory
    }
}

/// The view of the depth image: its depth aspect, one level, one layer.
pub fn depth_view_range() -> (range: VkImageSubresourceRange)
    ensures
        range == (VkImageSubresourceRange {
            aspect_mask: VK_IMAGE_ASPECT_DEPTH_BIT,
            base_mip_level: 0,
            level_count: 1,
            base_array_layer: 0,
            layer_count: 1,
        }),
{
    VkImageSubresourceRange {
        aspect_mask: VK_IMAGE_ASPECT_DEPTH_BIT,
        base_mip_level: 0,
        level_count: 1,
        base_array_layer: 0,
        layer_count: 1,
    }
}

/// The depth format: 32-bit float depth, which every device that runs
/// Vulkan offers as a depth attachment in practice.
pub const DEPTH_FORMAT: VkEnum = VK_FORMAT_D32_SFLOAT;

/// The depth image for `extent`: `D32_SFLOAT`, one level, one layer, one
/// sample, optimal tiling, used as the depth attachment only, and created
/// `UNDEFINED`: nothing is ever uploaded into it.
pub fn depth_image_description(extent: VkExtent2D) -> (d: ImageDescription)
    ensures
        d == (ImageDescription {
            format: VK_FORMAT_D32_SFLOAT,
            width: extent.width,
            height: extent.height,
            depth: 1,
            mip_levels: 1,
            array_layers: 1,
            samples: VK_SAMPLE_COUNT_1_BIT,
            tiling: VK_IMAGE_TILING_OPTIMAL,
            usage: VK_IMAGE_USAGE_DEPTH_STENCIL_ATTACHMENT_BIT,
            initial_layout: VK_IMAGE_LAYOUT_UNDEFINED,
        }),
{
    ImageDescription {
        format: DEPTH_FORMAT,
        width: extent.width,
        height: extent.height,
        depth: 1,
        mip_levels: 1,
        array_layers: 1,
        samples: VK_SAMPLE_COUNT_1_BIT,
        tiling: VK_IMAGE_TILING_OPTIMAL,
        usage: VK_IMAGE_USAGE_DEPTH_STENCIL_ATTACHMENT_BIT,
        initial_layout: VK_IMAGE_LAYOUT_UNDEFINED,
    }
}

/// Where the creation of the depth buffer stands.
#[derive(Clone, Copy, Debug, PartialEq, Eq, Structural)]
pub enum DepthState {
    /// Nothing done yet: a depth buffer of `extent` is wanted.
    Start { extent: VkExtent2D },
    /// Creating the image.
    CreatingImage,
    /// Asking what memory `image` needs.
    QueryingRequirements { image: VkImage },
    /// Allocating its memory.
    Allocating { image: VkImage },
    /// Binding `memory` to `image`.
    Binding { image: VkImage, memory: VkDeviceMemory },
    /// Creating the view of the bound image.
    CreatingView { image: VkImage, memory: VkDeviceMemory },
    /// The depth buffer is ready.
    Done,
    /// A step failed; what had been created was released.
    Failed,
}

/// Which step failed, with the result Vulkan gave where there is one.
#[derive(Clone, Copy, Debug, PartialEq, Eq, Structural)]
pub enum DepthFailure {
    CreateImage { result: VkEnum },
    /// No memory type the image may live in is device-local.
    NoMemoryType { type_filter: u32 },
    Allocate { result: VkEnum },
    Bind { result: VkEnum },
    CreateView { result: VkEnum },
}

/// What the backend reports after performing an action (or, for `Begin`,
/// before the first one).
#[derive(Clone, Copy, Debug, PartialEq, Eq, Structural)]
pub enum DepthEvent {
    Begin,
    ImageCreated { result: VkEnum, image: VkImage },
    RequirementsKnown { requirements: VkMemoryRequirements },
    MemoryAllocated { result: VkEnum, memory: VkDeviceMemory },
    MemoryBound { result: VkEnum },
    ViewCreated { result: VkEnum, view: VkImageView },
}

/// What the backend does next.
#[derive(Clone, Copy, Debug, PartialEq, Eq, Structural)]
pub enum DepthAction {
    /// `vkCreateImage` of a 2D image as `description` gives it, not shared
    /// between queues.
    CreateImage { description: ImageDescription },
    /// `vkGetImageMemoryRequirements`.
    QueryRequirements { image: VkImage },
    /// `vkAllocateMemory`.
    Allocate { allocation_size: VkDeviceSize, memory_type_index: u32 },
    /// `vkBindImageMemory` at offset 0.
    BindMemory { image: VkImage, memory: VkDeviceMemory },
    /// `vkCreateImageView` of a 2D view of `image` in `format`, with identity
    /// swizzles, over `range`.
    CreateView { image: VkImage, format: VkEnum, range: VkImageSubresourceRange },
    /// The depth buffer is `view` of `image`, bound to `memory`.
    Finish { view: VkImageView, image: VkImage, memory: VkDeviceMemory },
    /// Free `memory` and destroy `image`, those of them that were created;
    /// the creation fails with `failure`.
    Fail { failure: DepthFailure, image: Option<VkImage>, memory: Option<VkDeviceMemory> },
}

/// The event `event` is the report of the action `state` was waiting on.
pub open spec fn spec_depth_accepts(state: DepthState, event: DepthEvent) -> bool {
    match (state, event) {
        (DepthState::Start { .. }, DepthEvent::Begin) => true,
        (DepthState::CreatingImage, DepthEvent::ImageCreated { .. }) => true,
        (DepthState::QueryingRequirements { .. }, DepthEvent::RequirementsKnown { .. }) => true,
        (DepthState::Allocating { .. }, DepthEvent::MemoryAllocated { .. }) => true,
        (DepthState::Binding { .. }, DepthEvent::MemoryBound { .. }) => true,
        (DepthState::CreatingView { .. }, DepthEvent::ViewCreated { .. }) => true,
        _ => false,
    }
}

/// The image the creation in `state` has created and still owns.
pub open spec fn spec_depth_image(state: DepthState) -> Option<VkImage> {
    match state {
        DepthState::QueryingRequirements { image } => Some(image),
        DepthState::Allocating { image } => Some(image),
        DepthState::Binding { image, .. } => Some(image),
        DepthState::CreatingView { image, .. } => Some(image),
        _ => None,
    }
}

/// The memory the creation in `state` has allocated and still owns.
pub open spec fn spec_depth_memory(state: DepthState) -> Option<VkDeviceMemory> {
    match state {
        DepthState::Binding { memory, .. } => Some(memory),
        DepthState::CreatingView { memory, .. } => Some(memory),
        _ => None,
    }
}

/// The view of the depth image: its depth aspect, one level, one layer.
pub open spec fn spec_depth_view_range() -> VkImageSubresourceRange {
    VkImageSubresourceRange {
        aspect_mask: VK_IMAGE_ASPECT_DEPTH_BIT,
        base_mip_level: 0,
        level_count: 1,
        base_array_layer: 0,
        layer_count: 1,
    }
}

/// The transitions of the creation of the depth buffer. A pair
/// `spec_depth_accepts` refuses is no transition; it is given as failing
/// with nothing released.
pub open spec fn spec_depth_step(
    state: DepthState,
    event: DepthEvent,
    properties: VkPhysicalDeviceMemoryProperties,
) -> (DepthState, DepthAction) {
    match (state, event) {
        (DepthState::Start { extent }, DepthEvent::Begin) => (
            DepthState::CreatingImage,
            DepthAction::CreateImage {
                description: ImageDescription {
                    format: VK_FORMAT_D32_SFLOAT,
                    width: extent.width,
                    height: extent.height,
                    depth: 1,
                    mip_levels: 1,
                    array_layers: 1,
                    samples: VK_SAMPLE_COUNT_1_BIT,
                    tiling: VK_IMAGE_TILING_OPTIMAL,
                    usage: VK_IMAGE_USAGE_DEPTH_STENCIL_ATTACHMENT_BIT,
                    initial_layout: VK_IMAGE_LAYOUT_UNDEFINED,
                },
            },
        ),
        (DepthState::CreatingImage, DepthEvent::ImageCreated { result, image }) => if result == VK_SUCCESS {
            (DepthState::QueryingRequirements { image }, DepthAction::QueryRequirements { image })
        } else {
            (
                DepthState::Failed,
                DepthAction::Fail { failure: DepthFailure::CreateImage { result }, image: None, memory: None },
            )
        },
        (DepthState::QueryingRequirements { image }, DepthEvent::RequirementsKnown { requirements }) => match spec_chosen_memory_type(
            properties,
            requirements.memory_type_bits,
            VK_MEMORY_PROPERTY_DEVICE_LOCAL_BIT,
        ) {
            Some(memory_type_index) => (
                DepthState::Allocating { image },
                DepthAction::Allocate { allocation_size: requirements.size, memory_type_index },
            ),
            None => (
                DepthState::Failed,
                DepthAction::Fail {
                    failure: DepthFailure::NoMemoryType { type_filter: requirements.memory_type_bits },
                    image: Some(image),
                    memory: None,
                },
            ),
        },
        (DepthState::Allocating { image }, DepthEvent::MemoryAllocated { result, memory }) => if result
            == VK_SUCCESS {
            (DepthState::Binding { image, memory }, DepthAction::BindMemory { image, memory })
        } else {
            (
                DepthState::Failed,
                DepthAction::Fail { failure: DepthFailure::Allocate { result }, image: Some(image), memory: None },
            )
        },
        (DepthState::Binding { image, memory }, DepthEvent::MemoryBound { result }) => if result == VK_SUCCESS {
            (
                DepthState::CreatingView { image, memory },
                DepthAction::CreateView { image, format: VK_FORMAT_D32_SFLOAT, range: spec_depth_view_range() },
            )
        } else {
            (
                DepthState::Failed,
                DepthAction::Fail { failure: DepthFailure::Bind { result }, image: Some(image), memory: Some(memory) },
            )
        },
        (DepthState::CreatingView { image, memory }, DepthEvent::ViewCreated { result, view }) => if result
            == VK_SUCCESS {
            (DepthState::Done, DepthAction::Finish { view, image, memory })
        } else {
            (
                DepthState::Failed,
                DepthAction::Fail {
                    failure: DepthFailure::CreateView { result },
                    image: Some(image),
                    memory: Some(memory),
                },
            )
        },
        _ => (
            DepthState::Failed,
            DepthAction::Fail { failure: DepthFailure::CreateImage { result: VK_SUCCESS }, image: None, memory: None },
        ),
    }
}

/// Whether `event` answers what `state` is waiting for.
pub fn depth_accepts(state: DepthState, event: DepthEvent) -> (accepted: bool)
    ensures
        accepted == spec_depth_accepts(state, event),
{
    match (state, event) {
        (DepthState::Start { .. }, DepthEvent::Begin) => true,
        (DepthState::CreatingImage, DepthEvent::ImageCreated { .. }) => true,
        (DepthState::QueryingRequirements { .. }, DepthEvent::RequirementsKnown { .. }) => true,
        (DepthState::Allocating { .. }, DepthEvent::MemoryAllocated { .. }) => true,
        (DepthState::Binding { .. }, DepthEvent::MemoryBound { .. }) => true,
        (DepthState::CreatingView { .. }, DepthEvent::ViewCreated { .. }) => true,
        _ => false,
    }
}

/// The next state and the action to perform, given what the last action
/// came to. The device reports at most 32 memory types.
pub fn depth_step(
    state: DepthState,
    event: DepthEvent,
    memory_properties: &VkPhysicalDeviceMemoryProperties,
) -> (next: (DepthState, DepthAction))
    requires
        spec_depth_accepts(state, event),
        memory_properties.memory_type_count <= 32,
    ensures
        next == spec_depth_step(state, event, *memory_properties),
{
    match (state, event) {
        (DepthState::Start { extent }, DepthEvent::Begin) => (
            DepthState::CreatingImage,
            DepthAction::CreateImage { description: depth_image_description(extent) },
        ),
        (DepthState::CreatingImage, DepthEvent::ImageCreated { result, image }) => {
            if result == VK_SUCCESS {
                (DepthState::QueryingRequirements { image }, DepthAction::QueryRequirements { image })
            } else {
                (
                    DepthState::Failed,
                    DepthAction::Fail { failure: DepthFailure::CreateImage { result }, image: None, memory: None },
                )
            }
        },
        (DepthState::QueryingRequirements { image }, DepthEvent::RequirementsKnown { requirements }) => {
            match choose_memory_type(
                memory_properties,
                requirements.memory_type_bits,
                VK_MEMORY_PROPERTY_DEVICE_LOCAL_BIT,
            ) {
                Some(memory_type_index) => (
                    DepthState::Allocating { image },
                    DepthAction::Allocate { allocation_size: requirements.size, memory_type_index },
                ),
                None => (
                    DepthState::Failed,
                    DepthAction::Fail {
                        failure: DepthFailure::NoMemoryType { type_filter: requirements.memory_type_bits },
                        image: Some(image),
                        memory: None,
                    },
                ),
            }
        },
        (DepthState::Allocating { image }, DepthEvent::MemoryAllocated { result, memory }) => {
            if result == VK_SUCCESS {
                (DepthState::Binding { image, memory }, DepthAction::BindMemory { image, memory })
            } else {
                (
                    DepthState::Failed,
                    DepthAction::Fail {
                        failure: DepthFailure::Allocate { result },
                        image: Some(image),
                        memory: None,
                    },
                )
            }
        },
        (DepthState::Binding { image, memory }, DepthEvent::MemoryBound { result }) => {
            if result == VK_SUCCESS {
                (
                    DepthState::CreatingView { image, memory },
                    DepthAction::CreateView { image, format: DEPTH_FORMAT, range: depth_view_range() },
                )
            } else {
                (
                    DepthState::Failed,
                    DepthAction::Fail {
                        failure: DepthFailure::Bind { result },
                        image: Some(image),
                        memory: Some(memory),
                    },
                )
            }
        },
        (DepthState::CreatingView { image, memory }, DepthEvent::ViewCreated { result, view }) => {
            if result == VK_SUCCESS {
                (DepthState::Done, DepthAction::Finish { view, image, memory })
            } else {
                (
                    DepthState::Failed,
                    DepthAction::Fail {
                        failure: DepthFailure::CreateView { result },
                        image: Some(image),
                        memory: Some(memory),
                    },
                )
            }
        },
        _ => (
            DepthState::Failed,
            DepthAction::Fail { failure: DepthFailure::CreateImage { result: VK_SUCCESS }, image: None, memory: None },
        ),
    }
}

/// Every step keeps track of what exists: a failing step releases exactly the
/// image and memory created before it, and any other step owns what it owned
/// before plus what its event reports created.
pub proof fn law_depth_releases_what_it_created(
    state: DepthState,
    event: DepthEvent,
    properties: VkPhysicalDeviceMemoryProperties,
)
    requires
        spec_depth_accepts(state, event),
    ensures
        ({
            let (next, action) = spec_depth_step(state, event, properties);
            &&& next == DepthState::Failed ==> (action matches DepthAction::Fail { image, memory, .. } && image
                == spec_depth_image(state) && memory == spec_depth_memory(state))
            &&& next != DepthState::Failed && next != DepthState::Done ==> spec_depth_image(next) == (
            match event {
                DepthEvent::ImageCreated { image, .. } => Some(image),
                _ => spec_depth_image(state),
            })
            &&& next != DepthState::Failed && next != DepthState::Done ==> spec_depth_memory(next) == (
            match event {
                DepthEvent::MemoryAllocated { memory, .. } => Some(memory),
                _ => spec_depth_memory(state),
            })
            &&& next == DepthState::Done ==> (action matches DepthAction::Finish { image, memory, .. } && Some(
                image,
            ) == spec_depth_image(state) && Some(memory) == spec_depth_memory(state))
        }),
{
}

/// When some memory type the image may live in is device-local, the memory
/// allocated for the depth image is the lowest such type, as much as the
/// device asks; with none, the image is destroyed and nothing is allocated.
pub proof fn law_depth_memory_is_device_local(
    image: VkImage,
    requirements: VkMemoryRequirements,
    properties: VkPhysicalDeviceMemoryProperties,
)
    ensures
        ({
            let bits = requirements.memory_type_bits;
            let (next, action) = spec_depth_step(
                DepthState::QueryingRequirements { image },
                DepthEvent::RequirementsKnown { requirements },
                properties,
            );
            &&& (exists|i: int| is_suitable_memory_type(properties, bits, VK_MEMORY_PROPERTY_DEVICE_LOCAL_BIT, i))
                ==> (action matches DepthAction::Allocate { allocation_size, memory_type_index }
                && allocation_size == requirements.size && is_lowest_suitable_memory_type(
                properties,
                bits,
                VK_MEMORY_PROPERTY_DEVICE_LOCAL_BIT,
                memory_type_index as int,
            ))
            &&& !(exists|i: int| is_suitable_memory_type(properties, bits, VK_MEMORY_PROPERTY_DEVICE_LOCAL_BIT, i))
                ==> action == DepthAction::Fail {
                failure: DepthFailure::NoMemoryType { type_filter: bits },
                image: Some(image),
                memory: None,
            }
        }),
{
    let bits = requirements.memory_type_bits;
    if exists|i: int| is_suitable_memory_type(properties, bits, VK_MEMORY_PROPERTY_DEVICE_LOCAL_BIT, i) {
        let w = choose|i: int| is_suitable_memory_type(properties, bits, VK_MEMORY_PROPERTY_DEVICE_LOCAL_BIT, i);
        lemma_lowest_suitable_exists(properties, bits, VK_MEMORY_PROPERTY_DEVICE_LOCAL_BIT, w);
        let t = choose|i: int| is_lowest_suitable_memory_type(properties, bits, VK_MEMORY_PROPERTY_DEVICE_LOCAL_BIT, i);
        assert(0 <= t < 32);
        assert((t as u32) as int == t);
    }
}

/// The actions of a depth-buffer creation driven by `events` from `state`,
/// one per event; events past its end, or out of order, are not acted on.
pub open spec fn spec_depth_run(
    state: DepthState,
    events: Seq<DepthEvent>,
    properties: VkPhysicalDeviceMemoryProperties,
) -> Seq<DepthAction>
    decreases events.len(),
{
    if events.len() == 0 || !spec_depth_accepts(state, events[0]) {
        Seq::empty()
    } else {
        let (next, action) = spec_depth_step(state, events[0], properties);
        seq![action] + spec_depth_run(next, events.drop_first(), properties)
    }
}

/// The events of a creation in which the backend reports, in turn, the
/// creation of `image` with `created`, the requirements `requirements`, the
/// allocation of `memory` with `allocated`, the binding with `bound` and the
/// creation of `view` with `viewed`.
pub open spec fn depth_events(
    created: VkEnum,
    image: VkImage,
    requirements: VkMemoryRequirements,
    allocated: VkEnum,
    memory: VkDeviceMemory,
    bound: VkEnum,
    viewed: VkEnum,
    view: VkImageView,
) -> Seq<DepthEvent> {
    seq![
        DepthEvent::Begin,
        DepthEvent::ImageCreated { result: created, image },
        DepthEvent::RequirementsKnown { requirements },
        DepthEvent::MemoryAllocated { result: allocated, memory },
        DepthEvent::MemoryBound { result: bound },
        DepthEvent::ViewCreated { result: viewed, view },
    ]
}

/// The creation of the depth buffer ends in one action that either hands out
/// the view, image and memory or fails, and a failure destroys the image
/// exactly when its creation succeeded and frees the memory exactly when its
/// allocation was reached and succeeded. It succeeds exactly when every call
/// succeeded and some memory type the image may live in is device-local.
pub proof fn law_depth_failure_releases_everything(
    extent: VkExtent2D,
    created: VkEnum,
    image: VkImage,
    requirements: VkMemoryRequirements,
    allocated: VkEnum,
    memory: VkDeviceMemory,
    bound: VkEnum,
    viewed: VkEnum,
    view: VkImageView,
    properties: VkPhysicalDeviceMemoryProperties,
)
    ensures
        ({
            let actions = spec_depth_run(
                DepthState::Start { extent },
                depth_events(created, image, requirements, allocated, memory, bound, viewed, view),
                properties,
            );
            let suits = exists|i: int|
                is_suitable_memory_type(properties, requirements.memory_type_bits, VK_MEMORY_PROPERTY_DEVICE_LOCAL_BIT, i);
            let image_made = created == VK_SUCCESS;
            let memory_made = image_made && suits && allocated == VK_SUCCESS;
            &&& actions.len() >= 2
            &&& actions[0] == DepthAction::CreateImage {
                description: ImageDescription {
                    format: VK_FORMAT_D32_SFLOAT,
                    width: extent.width,
                    height: extent.height,
                    depth: 1,
                    mip_levels: 1,
                    array_layers: 1,
                    samples: VK_SAMPLE_COUNT_1_BIT,
                    tiling: VK_IMAGE_TILING_OPTIMAL,
                    usage: VK_IMAGE_USAGE_DEPTH_STENCIL_ATTACHMENT_BIT,
                    initial_layout: VK_IMAGE_LAYOUT_UNDEFINED,
                },
            }
            &&& (actions.last() == DepthAction::Finish { view, image, memory }) <==> (memory_made && bound
                == VK_SUCCESS && viewed == VK_SUCCESS)
            &&& !(memory_made && bound == VK_SUCCESS && viewed == VK_SUCCESS) ==> (
            actions.last() matches DepthAction::Fail { image: released_image, memory: released_memory, .. }
                && released_image == (if image_made {
                Some(image)
            } else {
                None
            }) && released_memory == (if memory_made {
                Some(memory)
            } else {
                None
            }))
        }),
{
    let events = depth_events(created, image, requirements, allocated, memory, bound, viewed, view);
    let e1 = events.drop_first();
    let e2 = e1.drop_first();
    let e3 = e2.drop_first();
    let e4 = e3.drop_first();
    let e5 = e4.drop_first();
    let e6 = e5.drop_first();
    assert(e6.len() == 0);
    assert(e1[0] == DepthEvent::ImageCreated { result: created, image });
    assert(e2[0] == DepthEvent::RequirementsKnown { requirements });
    assert(e3[0] == DepthEvent::MemoryAllocated { result: allocated, memory });
    assert(e4[0] == DepthEvent::MemoryBound { result: bound });
    assert(e5[0] == DepthEvent::ViewCreated { result: viewed, view });
    reveal_with_fuel(spec_depth_run, 7);
    let bits = requirements.memory_type_bits;
    let r5 = spec_depth_run(DepthState::CreatingView { image, memory }, e5, properties);
    let r4 = spec_depth_run(DepthState::Binding { image, memory }, e4, properties);
    let r3 = spec_depth_run(DepthState::Allocating { image }, e3, properties);
    let r2 = spec_depth_run(DepthState::QueryingRequirements { image }, e2, properties);
    let r1 = spec_depth_run(DepthState::CreatingImage, e1, properties);
    let r0 = spec_depth_run(DepthState::Start { extent }, events, properties);
    assert(spec_depth_run(DepthState::Done, e6, properties) =~= Seq::<DepthAction>::empty());
    assert(spec_depth_run(DepthState::Failed, e6, properties) =~= Seq::<DepthAction>::empty());
    assert(spec_depth_run(DepthState::Failed, e5, properties) =~= Seq::<DepthAction>::empty());
    assert(spec_depth_run(DepthState::Failed, e4, properties) =~= Seq::<DepthAction>::empty());
    assert(spec_depth_run(DepthState::Failed, e3, properties) =~= Seq::<DepthAction>::empty());
    assert(spec_depth_run(DepthState::Failed, e2, properties) =~= Seq::<DepthAction>::empty());
    assert(r0 =~= seq![spec_depth_step(DepthState::Start { extent }, DepthEvent::Begin, properties).1] + r1);
    if created == VK_SUCCESS {
        assert(r1 =~= seq![DepthAction::QueryRequirements { image }] + r2);
        if exists|i: int| is_suitable_memory_type(properties, bits, VK_MEMORY_PROPERTY_DEVICE_LOCAL_BIT, i) {
            let w = choose|i: int| is_suitable_memory_type(properties, bits, VK_MEMORY_PROPERTY_DEVICE_LOCAL_BIT, i);
            lemma_lowest_suitable_exists(properties, bits, VK_MEMORY_PROPERTY_DEVICE_LOCAL_BIT, w);
            let t = choose|i: int|
                is_lowest_suitable_memory_type(properties, bits, VK_MEMORY_PROPERTY_DEVICE_LOCAL_BIT, i);
            assert(0 <= t < 32);
            assert(r2 =~= seq![
                DepthAction::Allocate { allocation_size: requirements.size, memory_type_index: t as u32 },
            ] + r3);
            if allocated == VK_SUCCESS {
                assert(r3 =~= seq![DepthAction::BindMemory { image, memory }] + r4);
                if bound == VK_SUCCESS {
                    assert(r4 =~= seq![
                        DepthAction::CreateView { image, format: VK_FORMAT_D32_SFLOAT, range: spec_depth_view_range() },
                    ] + r5);
                }
            }
        }
    }
}

} // verus!
