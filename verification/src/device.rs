//! Choosing the physical device and queue family: the first family, over all
//! devices in the order Vulkan lists them, that can both draw and present to
//! the window's surface. One queue serves both.

use vstd::prelude::*;
use crate::vk_types::{VkFlags, VK_QUEUE_GRAPHICS_BIT};

verus! {

/// What the backend learned about one queue family of one device: its flags,
/// and whether it can present to the surface (asked only of graphics
/// families; the others count as not presenting).
#[derive(Clone, Copy, Debug, PartialEq, Eq, Structural)]
pub struct QueueFamilySupport {
    pub queue_flags: VkFlags,
    pub present_supported: bool,
}

/// Why no device could be chosen.
#[derive(Clone, Copy, Debug, PartialEq, Eq, Structural)]
pub enum DeviceChoiceError {
    /// Vulkan sees no physical device at all.
    NoPhysicalDevice,
    /// No family of any device supports both graphics and presentation to
    /// this window.
    NoGraphicsAndPresentQueue,
}

impl DeviceChoiceError {
    pub fn message(&self) -> (text: String)
        ensures
            *self == DeviceChoiceError::NoPhysicalDevice ==> text@
                == "на этой машине Vulkan не видит ни одного физического устройства"@,
            *self == DeviceChoiceError::NoGraphicsAndPresentQueue ==> text@
                == "ни одно физическое устройство не поддерживает и графику, и презентацию в это окно"@,
    {
        match self {
            DeviceChoiceError::NoPhysicalDevice => String::from_str(
                "на этой машине Vulkan не видит ни одного физического устройства",
            ),
            DeviceChoiceError::NoGraphicsAndPresentQueue => String::from_str(
                "ни одно физическое устройство не поддерживает и графику, и презентацию в это окно",
            ),
        }
    }
}

pub open spec fn has_graphics(queue_flags: VkFlags) -> bool {
    queue_flags & VK_QUEUE_GRAPHICS_BIT != 0
}

/// A family that can draw and present.
pub open spec fn is_usable_family(family: QueueFamilySupport) -> bool {
    has_graphics(family.queue_flags) && family.present_supported
}

/// Whether presentation support is worth asking of this family: only
/// graphics families can be chosen.
pub fn family_has_graphics(queue_flags: VkFlags) -> (graphics: bool)
    ensures
        graphics == has_graphics(queue_flags),
{
    queue_flags & VK_QUEUE_GRAPHICS_BIT != 0
}

/// Family `f` of device `d` is usable and no family before it, in device
/// order then family order, is.
pub open spec fn is_first_usable(devices: Seq<Vec<QueueFamilySupport>>, d: int, f: int) -> bool {
    &&& 0 <= d < devices.len()
    &&& 0 <= f < devices[d]@.len()
    &&& is_usable_family(devices[d]@[f])
    &&& forall|d2: int, f2: int|
        0 <= d2 < d && 0 <= f2 < devices[d2]@.len() ==> !is_usable_family(devices[d2]@[f2])
    &&& forall|f2: int| 0 <= f2 < f ==> !is_usable_family(devices[d]@[f2])
}

pub open spec fn any_usable(devices: Seq<Vec<QueueFamilySupport>>) -> bool {
    exists|d: int, f: int|
        0 <= d < devices.len() && 0 <= f < devices[d]@.len() && is_usable_family(devices[d]@[f])
}

/// The device index and queue family index to create the logical device
/// with. Family counts come from a `u32`.
pub fn pick_queue_family(devices: &Vec<Vec<QueueFamilySupport>>) -> (choice: Result<(usize, u32), DeviceChoiceError>)
    requires
        forall|d: int| 0 <= d < devices@.len() ==> devices@[d]@.len() <= u32::MAX,
    ensures
        devices@.len() == 0 ==> choice == Err::<(usize, u32), DeviceChoiceError>(
            DeviceChoiceError::NoPhysicalDevice,
        ),
        devices@.len() > 0 && !any_usable(devices@) ==> choice == Err::<(usize, u32), DeviceChoiceError>(
            DeviceChoiceError::NoGraphicsAndPresentQueue,
        ),
        choice matches Ok((d, f)) ==> is_first_usable(devices@, d as int, f as int),
        any_usable(devices@) ==> choice is Ok,
{
    if devices.len() == 0 {
        return Err(DeviceChoiceError::NoPhysicalDevice);
    }
    let mut d: usize = 0;
    while d < devices.len()
        invariant
            d <= devices@.len(),
            forall|i: int| 0 <= i < devices@.len() ==> devices@[i]@.len() <= u32::MAX,
            forall|d2: int, f2: int|
                0 <= d2 < d && 0 <= f2 < devices@[d2]@.len() ==> !is_usable_family(devices@[d2]@[f2]),
        decreases devices@.len() - d,
    {
        let families = &devices[d];
        let mut f: usize = 0;
        while f < families.len()
            invariant
                d < devices@.len(),
                families == &devices@[d as int],
                families@.len() <= u32::MAX,
                f <= families@.len(),
                forall|d2: int, f2: int|
                    0 <= d2 < d && 0 <= f2 < devices@[d2]@.len() ==> !is_usable_family(devices@[d2]@[f2]),
                forall|f2: int| 0 <= f2 < f ==> !is_usable_family(families@[f2]),
            decreases families@.len() - f,
        {
            let family = families[f];
            if family.queue_flags & VK_QUEUE_GRAPHICS_BIT != 0 && family.present_supported {
                return Ok((d, f as u32));
            }
            f = f + 1;
        }
        d = d + 1;
    }
    Err(DeviceChoiceError::NoGraphicsAndPresentQueue)
}

} // verus!
