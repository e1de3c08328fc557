use xd_engine::instance::{
    fixed_name_equals, instance_extensions, instance_layers, instance_setup, name_listed, InstanceSetup, PORTABILITY_ENUMERATION_EXTENSION,
    VALIDATION_LAYER, VK_INSTANCE_CREATE_ENUMERATE_PORTABILITY_BIT_KHR,
};

fn field(name: &str) -> Vec<u8> {
    let mut bytes = name.as_bytes().to_vec();
    bytes.resize(256, 0);
    bytes
}

#[test]
fn a_fixed_field_matches_only_the_whole_name() {
    assert!(fixed_name_equals(&field("VK_LAYER_KHRONOS_validation"), b"VK_LAYER_KHRONOS_validation"));
    assert!(!fixed_name_equals(&field("VK_LAYER_KHRONOS_validation_extra"), b"VK_LAYER_KHRONOS_validation"));
    assert!(!fixed_name_equals(&field("VK_LAYER_KHRONOS"), b"VK_LAYER_KHRONOS_validation"));
    assert!(!fixed_name_equals(&[b'a', b'b', 0], b"abc"));
}

#[test]
fn the_validation_layer_is_found_among_others() {
    let names = vec![field("VK_LAYER_LUNARG_api_dump"), field("VK_LAYER_KHRONOS_validation")];
    assert!(name_listed(&names, VALIDATION_LAYER));
    assert!(!name_listed(&names, PORTABILITY_ENUMERATION_EXTENSION));
    assert!(!name_listed(&Vec::new(), VALIDATION_LAYER));
}

#[test]
fn portability_sets_the_flag_and_the_extension() {
    assert_eq!(
        instance_setup(true, true),
        InstanceSetup {
            validation_layer: true,
            portability_enumeration: true,
            flags: VK_INSTANCE_CREATE_ENUMERATE_PORTABILITY_BIT_KHR,
            version: 0x1000,
        }
    );
    assert_eq!(
        instance_setup(false, false),
        InstanceSetup { validation_layer: false, portability_enumeration: false, flags: 0, version: 0x1000 }
    );
}

#[test]
fn the_lists_follow_the_setup() {
    let with_both = instance_setup(true, true);
    assert_eq!(instance_layers(&with_both), vec![VALIDATION_LAYER]);
    assert_eq!(
        instance_extensions(&["VK_KHR_surface", "VK_KHR_xlib_surface"], &with_both),
        vec!["VK_KHR_surface", "VK_KHR_xlib_surface", "VK_KHR_portability_enumeration"]
    );
    let with_none = instance_setup(false, false);
    assert!(instance_layers(&with_none).is_empty());
    assert_eq!(instance_extensions(&["VK_KHR_surface"], &with_none), vec!["VK_KHR_surface"]);
}
