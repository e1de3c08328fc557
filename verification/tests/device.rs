use xd_engine::device::{family_has_graphics, pick_queue_family, DeviceChoiceError, QueueFamilySupport};
use xd_engine::vk_types::VK_QUEUE_GRAPHICS_BIT;

fn family(queue_flags: u32, present_supported: bool) -> QueueFamilySupport {
    QueueFamilySupport { queue_flags, present_supported }
}

#[test]
fn no_device_at_all_is_its_own_error() {
    let devices: Vec<Vec<QueueFamilySupport>> = Vec::new();
    assert_eq!(pick_queue_family(&devices), Err(DeviceChoiceError::NoPhysicalDevice));
}

#[test]
fn a_family_must_both_draw_and_present() {
    let devices = vec![vec![family(VK_QUEUE_GRAPHICS_BIT, false), family(0x4, true)]];
    assert_eq!(pick_queue_family(&devices), Err(DeviceChoiceError::NoGraphicsAndPresentQueue));
}

#[test]
fn the_first_usable_family_in_device_order_wins() {
    let devices = vec![
        vec![family(0x2, true)],
        vec![family(0x4, false), family(VK_QUEUE_GRAPHICS_BIT | 0x2, true), family(VK_QUEUE_GRAPHICS_BIT, true)],
        vec![family(VK_QUEUE_GRAPHICS_BIT, true)],
    ];
    assert_eq!(pick_queue_family(&devices), Ok((1, 1)));
}

#[test]
fn a_device_without_families_is_skipped() {
    let devices = vec![Vec::new(), vec![family(VK_QUEUE_GRAPHICS_BIT, true)]];
    assert_eq!(pick_queue_family(&devices), Ok((1, 0)));
}

#[test]
fn only_graphics_families_are_asked_about_presentation() {
    assert!(family_has_graphics(VK_QUEUE_GRAPHICS_BIT));
    assert!(family_has_graphics(0x7));
    assert!(!family_has_graphics(0x6));
}

#[test]
fn errors_say_what_went_wrong() {
    assert_eq!(
        DeviceChoiceError::NoPhysicalDevice.message(),
        "на этой машине Vulkan не видит ни одного физического устройства"
    );
    assert_eq!(
        DeviceChoiceError::NoGraphicsAndPresentQueue.message(),
        "ни одно физическое устройство не поддерживает и графику, и презентацию в это окно"
    );
}
