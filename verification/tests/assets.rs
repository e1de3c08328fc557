use xd_engine::gpu_assets::{
    mesh_is_drawable, DrawCall, triangle_indices, GpuAssets, GpuMesh, GpuTexture, MeshId, SyncPlan, TextureId,
};
use xd_engine::image::GpuImage;
use xd_engine::memory::Buffer;
use xd_engine::vk_types::{
    VkBuffer, VkDescriptorPool, VkDescriptorSet, VkDescriptorSetLayout, VkDeviceMemory, VkImage, VkImageView,
    VkSampler,
};

fn texture(n: u64) -> GpuTexture {
    GpuTexture {
        image: GpuImage::new(VkImageView(100 + n), 1, VkImage(200 + n), VkDeviceMemory(300 + n)),
        sampler: VkSampler(400 + n),
        set: VkDescriptorSet(0),
    }
}

fn mesh(n: u64, index_count: u32) -> GpuMesh {
    GpuMesh {
        vertex: Buffer::new(VkBuffer(10 + n), VkDeviceMemory(20 + n)),
        index: Buffer::new(VkBuffer(30 + n), VkDeviceMemory(40 + n)),
        index_count,
    }
}

#[test]
fn a_new_arena_is_empty_and_has_no_pool_yet() {
    let assets = GpuAssets::new(texture(0), VkDescriptorSetLayout(7));
    assert_eq!(assets.mesh_count(), 0);
    assert_eq!(assets.texture_count(), 0);
    assert_eq!(assets.pool(), VkDescriptorPool(0));
    assert_eq!(assets.set_layout(), VkDescriptorSetLayout(7));
    assert_eq!(assets.descriptor_capacity(), 1);
}

#[test]
fn sync_uploads_only_the_tail_the_gpu_lacks() {
    let mut assets = GpuAssets::new(texture(0), VkDescriptorSetLayout(7));
    assets.push_mesh(Some(mesh(1, 36)));
    assets.push_texture(texture(1));
    assert_eq!(
        assets.sync_plan(3, 1),
        SyncPlan { first_new_mesh: 1, first_new_texture: 1, rebuild_descriptors: false }
    );
    assert_eq!(
        assets.sync_plan(1, 4),
        SyncPlan { first_new_mesh: 1, first_new_texture: 1, rebuild_descriptors: true }
    );
}

#[test]
fn an_empty_mesh_keeps_its_slot_but_has_nothing_to_draw() {
    let mut assets = GpuAssets::new(texture(0), VkDescriptorSetLayout(7));
    assets.push_mesh(None);
    assets.push_mesh(Some(mesh(2, 6)));
    assert_eq!(assets.mesh_count(), 2);
    assert!(assets.mesh(MeshId(0)).is_none());
    let drawn = assets.mesh(MeshId(1)).unwrap();
    assert_eq!(drawn.index_count, 6);
    assert_eq!(drawn.vertex.handle, VkBuffer(12));
    assert_eq!(drawn.index.memory(), VkDeviceMemory(42));
}

#[test]
fn rebuilt_sets_go_to_every_texture_then_to_the_white_one() {
    let mut assets = GpuAssets::new(texture(0), VkDescriptorSetLayout(7));
    assets.push_texture(texture(1));
    assets.push_texture(texture(2));
    assert_eq!(assets.descriptor_capacity(), 3);
    assert_eq!(
        assets.descriptor_targets(),
        vec![
            (VkImageView(101), VkSampler(401)),
            (VkImageView(102), VkSampler(402)),
            (VkImageView(100), VkSampler(400)),
        ]
    );
    let sets = [VkDescriptorSet(51), VkDescriptorSet(52), VkDescriptorSet(53)];
    assets.install_descriptor_sets(VkDescriptorPool(9), &sets);
    assert_eq!(assets.pool(), VkDescriptorPool(9));
    assert_eq!(assets.descriptor_set(Some(TextureId(0))), VkDescriptorSet(51));
    assert_eq!(assets.descriptor_set(Some(TextureId(1))), VkDescriptorSet(52));
    assert_eq!(assets.descriptor_set(None), VkDescriptorSet(53));
    assert_eq!(assets.texture_count(), 2);
}

#[test]
fn into_parts_hands_back_every_handle_for_destruction() {
    let mut assets = GpuAssets::new(texture(0), VkDescriptorSetLayout(7));
    assets.push_mesh(Some(mesh(1, 3)));
    assets.push_texture(texture(1));
    assets.install_descriptor_sets(VkDescriptorPool(9), &[VkDescriptorSet(61), VkDescriptorSet(62)]);
    let (meshes, textures, white, pool) = assets.into_parts();
    assert_eq!(meshes.len(), 1);
    assert_eq!(textures.len(), 1);
    assert_eq!(textures[0].image.image(), VkImage(201));
    assert_eq!(textures[0].set, VkDescriptorSet(61));
    assert_eq!(white.set, VkDescriptorSet(62));
    assert_eq!(white.image.memory(), VkDeviceMemory(300));
    assert_eq!(pool, VkDescriptorPool(9));
}

#[test]
fn ids_give_back_their_index() {
    assert_eq!(MeshId(4).index(), 4);
    assert_eq!(TextureId(2).index(), 2);
}

#[test]
fn a_mesh_without_vertices_or_triangles_is_not_uploaded() {
    assert!(mesh_is_drawable(8, 12));
    assert!(!mesh_is_drawable(0, 12));
    assert!(!mesh_is_drawable(8, 0));
    assert!(!mesh_is_drawable(0, 0));
}

#[test]
fn triangle_corners_are_laid_out_in_order() {
    assert_eq!(triangle_indices(&[[0, 1, 2], [2, 3, 0]]), vec![0, 1, 2, 2, 3, 0]);
    assert_eq!(triangle_indices(&[]), Vec::<u32>::new());
}

#[test]
fn every_instance_with_geometry_is_drawn_in_order() {
    let mut assets = GpuAssets::new(texture(0), VkDescriptorSetLayout(7));
    assets.push_mesh(Some(mesh(1, 36)));
    assets.push_mesh(None);
    assets.push_texture(texture(1));
    assets.install_descriptor_sets(VkDescriptorPool(9), &[VkDescriptorSet(71), VkDescriptorSet(72)]);
    let calls = assets.draw_calls(&[
        (MeshId(0), Some(TextureId(0))),
        (MeshId(1), Some(TextureId(0))),
        (MeshId(0), None),
    ]);
    assert_eq!(
        calls,
        vec![
            DrawCall { instance: 0, vertex: VkBuffer(11), index: VkBuffer(31), index_count: 36, set: VkDescriptorSet(71) },
            DrawCall { instance: 2, vertex: VkBuffer(11), index: VkBuffer(31), index_count: 36, set: VkDescriptorSet(72) },
        ]
    );
    assert!(assets.draw_calls(&[]).is_empty());
}
