use xd_engine::memory::{find_memory_type, Buffer};
use xd_engine::vk_types::{
    VkBuffer, VkDeviceMemory, VkFlags, VkMemoryHeap, VkMemoryType, VkPhysicalDeviceMemoryProperties,
    VK_MAX_MEMORY_HEAPS, VK_MAX_MEMORY_TYPES, VK_MEMORY_PROPERTY_HOST_COHERENT_BIT,
    VK_MEMORY_PROPERTY_HOST_VISIBLE_BIT,
};

fn memory_type(flags: VkFlags) -> VkMemoryType {
    VkMemoryType { property_flags: flags, heap_index: 0 }
}

fn properties_with(types: &[VkMemoryType]) -> VkPhysicalDeviceMemoryProperties {
    let mut memory_types = [VkMemoryType::default(); VK_MAX_MEMORY_TYPES];
    memory_types[..types.len()].copy_from_slice(types);
    VkPhysicalDeviceMemoryProperties {
        memory_type_count: types.len() as u32,
        memory_types,
        memory_heap_count: 0,
        memory_heaps: [VkMemoryHeap::default(); VK_MAX_MEMORY_HEAPS],
    }
}

const HOST_VISIBLE_COHERENT: VkFlags = VK_MEMORY_PROPERTY_HOST_VISIBLE_BIT | VK_MEMORY_PROPERTY_HOST_COHERENT_BIT;

#[test]
fn picks_the_type_that_has_every_required_bit() {
    let props = properties_with(&[memory_type(0), memory_type(HOST_VISIBLE_COHERENT)]);
    // The mask allows both; only the second has the properties.
    let index = find_memory_type(&props, 0b11, HOST_VISIBLE_COHERENT).unwrap();
    assert_eq!(index, 1);
}

#[test]
fn a_type_the_mask_does_not_allow_is_skipped_even_with_right_properties() {
    let props = properties_with(&[memory_type(HOST_VISIBLE_COHERENT), memory_type(HOST_VISIBLE_COHERENT)]);
    let index = find_memory_type(&props, 0b10, HOST_VISIBLE_COHERENT).unwrap();
    assert_eq!(index, 1);
}

#[test]
fn extra_property_bits_do_not_disqualify_a_type() {
    let extra = HOST_VISIBLE_COHERENT | 0x0000_0001;
    let props = properties_with(&[memory_type(extra)]);
    assert_eq!(find_memory_type(&props, 0b1, HOST_VISIBLE_COHERENT).unwrap(), 0);
}

#[test]
fn no_matching_type_is_an_error_not_a_panic() {
    let props = properties_with(&[memory_type(0)]);
    assert!(find_memory_type(&props, 0b1, HOST_VISIBLE_COHERENT).is_err());
}

#[test]
fn the_lowest_suitable_type_wins_and_types_past_the_count_do_not_exist() {
    let props = properties_with(&[memory_type(0), memory_type(HOST_VISIBLE_COHERENT), memory_type(HOST_VISIBLE_COHERENT)]);
    assert_eq!(find_memory_type(&props, u32::MAX, HOST_VISIBLE_COHERENT).unwrap(), 1);
    let mut props = properties_with(&[memory_type(0)]);
    props.memory_types[5] = memory_type(HOST_VISIBLE_COHERENT);
    assert!(find_memory_type(&props, u32::MAX, HOST_VISIBLE_COHERENT).is_err());
    assert!(find_memory_type(&properties_with(&[]), u32::MAX, 0).is_err());
}

#[test]
fn a_buffer_keeps_its_memory() {
    let buffer = Buffer::new(VkBuffer(4), VkDeviceMemory(5));
    assert_eq!(buffer.handle, VkBuffer(4));
    assert_eq!(buffer.handle(), VkBuffer(4));
    assert_eq!(buffer.memory(), VkDeviceMemory(5));
}

#[test]
fn the_error_names_the_properties_and_the_mask_in_hex() {
    let props = properties_with(&[memory_type(0), memory_type(0x1)]);
    assert_eq!(
        find_memory_type(&props, 0b11, HOST_VISIBLE_COHERENT),
        Err("нет типа памяти со свойствами 0x0006 среди допустимых по маске 0x00000003".to_string())
    );
    assert_eq!(
        find_memory_type(&props, 0xdead_beef, 0x12345),
        Err("нет типа памяти со свойствами 0x12345 среди допустимых по маске 0xdeadbeef".to_string())
    );
    assert_eq!(
        find_memory_type(&props, 0, 0xFFFF_FFFF),
        Err("нет типа памяти со свойствами 0xffffffff среди допустимых по маске 0x00000000".to_string())
    );
}
