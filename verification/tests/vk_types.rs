use xd_engine::vk_types::vk_make_api_version;

#[test]
fn api_versions_pack_their_fields() {
    assert_eq!(vk_make_api_version(0, 1, 0, 0), 0x0040_0000);
    assert_eq!(vk_make_api_version(0, 0, 1, 0), 0x1000);
    assert_eq!(vk_make_api_version(0, 1, 3, 250), (1 << 22) | (3 << 12) | 250);
    assert_eq!(vk_make_api_version(1, 0, 0, 0), 0x2000_0000);
}
