//! The GPU mirror of the engine's asset arenas: a vertex and an index buffer
//! per mesh, an image with its sampler and descriptor set per texture.
//!
//! The key is the arena index itself: meshes and textures are uploaded in the
//! order the arenas hold them, so slot `i` here mirrors item `i` there, and no
//! map between the two is needed while the arenas only grow. Syncing compares
//! lengths and uploads the tail.

use vstd::prelude::*;
use crate::image::GpuImage;
use crate::memory::Buffer;
use crate::vk_types::{VkBuffer, VkDescriptorPool, VkDescriptorSet, VkDescriptorSetLayout, VkImageView, VkSampler};

verus! {

/// Index of a mesh in the asset arena.
#[derive(Clone, Copy, Debug, PartialEq, Eq, Structural)]
pub struct MeshId(pub usize);

impl MeshId {
    pub fn index(&self) -> (index: usize)
        ensures
            index == self.0,
    {
        self.0
    }
}

/// Index of a texture in the asset arena.
#[derive(Clone, Copy, Debug, PartialEq, Eq, Structural)]
pub struct TextureId(pub usize);

impl TextureId {
    pub fn index(&self) -> (index: usize)
        ensures
            index == self.0,
    {
        self.0
    }
}

/// One mesh's geometry on the GPU.
pub struct GpuMesh {
    pub vertex: Buffer,
    pub index: Buffer,
    pub index_count: u32,
}

/// One texture on the GPU with its sampler. `set` is filled in when the
/// descriptor pool is rebuilt: the sets live in a pool shared by the arena.
pub struct GpuTexture {
    pub image: GpuImage,
    pub sampler: VkSampler,
    pub set: VkDescriptorSet,
}

/// What a frame's sync has to upload: the meshes from `first_new_mesh` on,
/// the textures from `first_new_texture` on, and whether the descriptor pool
/// has to be rebuilt for new textures.
#[derive(Clone, Copy, Debug, PartialEq, Eq, Structural)]
pub struct SyncPlan {
    pub first_new_mesh: usize,
    pub first_new_texture: usize,
    pub rebuild_descriptors: bool,
}

/// One indexed draw: instance `instance` of the scene, with its mesh's
/// buffers and its texture's descriptor set.
#[derive(Clone, Copy, Debug, PartialEq, Eq, Structural)]
pub struct DrawCall {
    pub instance: usize,
    pub vertex: VkBuffer,
    pub index: VkBuffer,
    pub index_count: u32,
    pub set: VkDescriptorSet,
}

/// The descriptor set an instance with this texture is drawn with: the
/// texture's own, or the white stand-in's.
pub open spec fn spec_set_for(textures: Seq<GpuTexture>, white: GpuTexture, texture: Option<TextureId>) -> VkDescriptorSet {
    match texture {
        Some(t) => textures[t.0 as int].set,
        None => white.set,
    }
}

/// The draws of `instances` (each a mesh and an optional texture), in their
/// order: one per instance whose mesh has geometry, none for the others.
pub open spec fn spec_draw_calls(
    meshes: Seq<Option<GpuMesh>>,
    textures: Seq<GpuTexture>,
    white: GpuTexture,
    instances: Seq<(MeshId, Option<TextureId>)>,
) -> Seq<DrawCall>
    decreases instances.len(),
{
    if instances.len() == 0 {
        Seq::empty()
    } else {
        let earlier = spec_draw_calls(meshes, textures, white, instances.drop_last());
        let (mesh, texture) = instances.last();
        match meshes[mesh.0 as int] {
            Some(m) => earlier.push(
                DrawCall {
                    instance: (instances.len() - 1) as usize,
                    vertex: m.vertex.spec_handle(),
                    index: m.index.spec_handle(),
                    index_count: m.index_count,
                    set: spec_set_for(textures, white, texture),
                },
            ),
            None => earlier,
        }
    }
}

/// What the draw call of instance `k` of `instances` must be: that
/// instance's own mesh buffers and index count, and its own texture's
/// descriptor set, or the white stand-in's when it has no texture.
pub open spec fn is_draw_of_instance(
    call: DrawCall,
    meshes: Seq<Option<GpuMesh>>,
    textures: Seq<GpuTexture>,
    white: GpuTexture,
    instances: Seq<(MeshId, Option<TextureId>)>,
) -> bool {
    let k = call.instance as int;
    &&& 0 <= k < instances.len()
    &&& meshes[instances[k].0.0 as int] matches Some(m) && call.vertex == m.vertex.spec_handle() && call.index
        == m.index.spec_handle() && call.index_count == m.index_count
    &&& call.set == match instances[k].1 {
        Some(t) => textures[t.0 as int].set,
        None => white.set,
    }
}

/// A frame draws each instance that has geometry exactly once, in the order
/// of the instances, and nothing else; each draw uses the instance's own
/// mesh and the descriptor set of the instance's own texture (the white
/// stand-in's for an instance without one), whatever the other instances
/// hold.
pub proof fn law_each_instance_drawn_with_its_own_texture(
    meshes: Seq<Option<GpuMesh>>,
    textures: Seq<GpuTexture>,
    white: GpuTexture,
    instances: Seq<(MeshId, Option<TextureId>)>,
)
    requires
        instances.len() <= usize::MAX,
    ensures
        ({
            let calls = spec_draw_calls(meshes, textures, white, instances);
            &&& forall|j: int|
                0 <= j < calls.len() ==> is_draw_of_instance(#[trigger] calls[j], meshes, textures, white, instances)
            &&& forall|j: int, l: int| 0 <= j < l < calls.len() ==> #[trigger] calls[j].instance < #[trigger] calls[l].instance
            &&& forall|k: int|
                0 <= k < instances.len() && (#[trigger] meshes[instances[k].0.0 as int]) is Some ==> exists|j: int|
                    0 <= j < calls.len() && calls[j].instance == k
        }),
    decreases instances.len(),
{
    if instances.len() > 0 {
        let earlier_instances = instances.drop_last();
        law_each_instance_drawn_with_its_own_texture(meshes, textures, white, earlier_instances);
        let earlier = spec_draw_calls(meshes, textures, white, earlier_instances);
        let calls = spec_draw_calls(meshes, textures, white, instances);
        let n = instances.len() - 1;
        assert forall|j: int| 0 <= j < earlier.len() implies #[trigger] earlier[j].instance < n by {
            assert(is_draw_of_instance(earlier[j], meshes, textures, white, earlier_instances));
        }
        assert forall|j: int| 0 <= j < calls.len() implies is_draw_of_instance(
            #[trigger] calls[j],
            meshes,
            textures,
            white,
            instances,
        ) by {
            if j < earlier.len() {
                assert(calls[j] == earlier[j]);
                assert(is_draw_of_instance(earlier[j], meshes, textures, white, earlier_instances));
                assert(instances[earlier[j].instance as int] == earlier_instances[earlier[j].instance as int]);
            }
        }
        assert forall|k: int|
            0 <= k < instances.len() && (#[trigger] meshes[instances[k].0.0 as int]) is Some implies exists|j: int|
                0 <= j < calls.len() && calls[j].instance == k by {
            if k < n {
                assert(earlier_instances[k] == instances[k]);
                assert(meshes[earlier_instances[k].0.0 as int] is Some);
                let j = choose|j: int| 0 <= j < earlier.len() && earlier[j].instance == k;
                assert(calls[j] == earlier[j]);
            } else {
                assert(calls[earlier.len() as int].instance == k);
            }
        }
    }
}

pub struct GpuAssets {
    /// `None`: the mesh has no triangle. A buffer of size zero cannot be
    /// created, and an empty mesh is simply not drawn.
    meshes: Vec<Option<GpuMesh>>,
    textures: Vec<GpuTexture>,
    /// The 1x1 white texel for instances without a texture.
    white: GpuTexture,
    pool: VkDescriptorPool,
    set_layout: VkDescriptorSetLayout,
}

impl GpuAssets {
    pub closed spec fn spec_meshes(&self) -> Seq<Option<GpuMesh>> {
        self.meshes@
    }

    pub closed spec fn spec_textures(&self) -> Seq<GpuTexture> {
        self.textures@
    }

    pub closed spec fn spec_white(&self) -> GpuTexture {
        self.white
    }

    pub closed spec fn spec_pool(&self) -> VkDescriptorPool {
        self.pool
    }

    pub closed spec fn spec_set_layout(&self) -> VkDescriptorSetLayout {
        self.set_layout
    }

    /// An empty arena with the white stand-in texture, before any descriptor
    /// pool exists.
    pub fn new(white: GpuTexture, set_layout: VkDescriptorSetLayout) -> (assets: Self)
        ensures
            assets.spec_meshes() == Seq::<Option<GpuMesh>>::empty(),
            assets.spec_textures() == Seq::<GpuTexture>::empty(),
            assets.spec_white() == white,
            assets.spec_pool() == VkDescriptorPool(0),
            assets.spec_set_layout() == set_layout,
    {
        GpuAssets { meshes: Vec::new(), textures: Vec::new(), white, pool: VkDescriptorPool(0), set_layout }
    }

    pub fn mesh_count(&self) -> (count: usize)
        ensures
            count == self.spec_meshes().len(),
    {
        self.meshes.len()
    }

    pub fn texture_count(&self) -> (count: usize)
        ensures
            count == self.spec_textures().len(),
    {
        self.textures.len()
    }

    /// What the arenas hold that the GPU does not yet: their tails past the
    /// slots already uploaded. The arenas only grow, so their lengths are at
    /// least the counts here. Most frames there is nothing to do.
    pub fn sync_plan(&self, mesh_total: usize, texture_total: usize) -> (plan: SyncPlan)
        requires
            mesh_total >= self.spec_meshes().len(),
            texture_total >= self.spec_textures().len(),
        ensures
            plan.first_new_mesh == self.spec_meshes().len(),
            plan.first_new_texture == self.spec_textures().len(),
            plan.rebuild_descriptors <==> texture_total > self.spec_textures().len(),
    {
        let first_new_texture = self.textures.len();
        SyncPlan {
            first_new_mesh: self.meshes.len(),
            first_new_texture,
            rebuild_descriptors: texture_total > first_new_texture,
        }
    }

    /// Appends the next mesh's slot; it mirrors the arena's next index.
    pub fn push_mesh(&mut self, mesh: Option<GpuMesh>)
        ensures
            final(self).spec_meshes() == old(self).spec_meshes().push(mesh),
            final(self).spec_textures() == old(self).spec_textures(),
            final(self).spec_white() == old(self).spec_white(),
            final(self).spec_pool() == old(self).spec_pool(),
            final(self).spec_set_layout() == old(self).spec_set_layout(),
    {
        self.meshes.push(mesh);
    }

    /// Appends the next texture's slot; it mirrors the arena's next index.
    pub fn push_texture(&mut self, texture: GpuTexture)
        ensures
            final(self).spec_meshes() == old(self).spec_meshes(),
            final(self).spec_textures() == old(self).spec_textures().push(texture),
            final(self).spec_white() == old(self).spec_white(),
            final(self).spec_pool() == old(self).spec_pool(),
            final(self).spec_set_layout() == old(self).spec_set_layout(),
    {
        self.textures.push(texture);
    }

    /// An instance's geometry; `None` when its mesh is empty and there is
    /// nothing to draw.
    pub fn mesh(&self, id: MeshId) -> (mesh: Option<&GpuMesh>)
        requires
            id.0 < self.spec_meshes().len(),
        ensures
            mesh is Some <==> self.spec_meshes()[id.0 as int] is Some,
            mesh matches Some(m) ==> *m == self.spec_meshes()[id.0 as int]->Some_0,
    {
        self.meshes[id.index()].as_ref()
    }

    /// An instance's texture descriptor set, and the white stand-in's for an
    /// instance without a texture: the shader multiplies by the texel, and
    /// white changes nothing.
    pub fn descriptor_set(&self, id: Option<TextureId>) -> (set: VkDescriptorSet)
        requires
            id matches Some(t) ==> t.0 < self.spec_textures().len(),
        ensures
            id matches Some(t) ==> set == self.spec_textures()[t.0 as int].set,
            id is None ==> set == self.spec_white().set,
    {
        match id {
            Some(id) => self.textures[id.index()].set,
            None => self.white.set,
        }
    }

    /// What to draw for a scene's instances, given as their mesh and
    /// texture: every instance whose mesh has geometry, in order, with that
    /// mesh's buffers and index count and the texture's set (the white
    /// stand-in's when it has none). An empty mesh draws nothing.
    pub fn draw_calls(&self, instances: &[(MeshId, Option<TextureId>)]) -> (calls: Vec<DrawCall>)
        requires
            forall|i: int|
                0 <= i < instances@.len() ==> {
                    &&& (#[trigger] instances@[i]).0.0 < self.spec_meshes().len()
                    &&& instances@[i].1 matches Some(t) ==> t.0 < self.spec_textures().len()
                },
        ensures
            calls@ == spec_draw_calls(self.spec_meshes(), self.spec_textures(), self.spec_white(), instances@),
    {
        let mut calls: Vec<DrawCall> = Vec::new();
        let mut i: usize = 0;
        while i < instances.len()
            invariant
                i <= instances@.len(),
                forall|j: int|
                    0 <= j < instances@.len() ==> {
                        &&& (#[trigger] instances@[j]).0.0 < self.spec_meshes().len()
                        &&& instances@[j].1 matches Some(t) ==> t.0 < self.spec_textures().len()
                    },
                calls@ == spec_draw_calls(
                    self.spec_meshes(),
                    self.spec_textures(),
                    self.spec_white(),
                    instances@.take(i as int),
                ),
            decreases instances@.len() - i,
        {
            let (mesh_id, texture) = instances[i];
            proof {
                assert(instances@.take(i + 1).drop_last() =~= instances@.take(i as int));
                assert(instances@.take(i + 1).last() == instances@[i as int]);
            }
            match self.mesh(mesh_id) {
                Some(mesh) => {
                    calls.push(
                        DrawCall {
                            instance: i,
                            vertex: mesh.vertex.handle(),
                            index: mesh.index.handle(),
                            index_count: mesh.index_count,
                            set: self.descriptor_set(texture),
                        },
                    );
                },
                None => {},
            }
            i = i + 1;
        }
        proof {
            assert(instances@.take(instances@.len() as int) =~= instances@);
        }
        calls
    }

    /// The pool the current sets live in.
    pub fn pool(&self) -> (pool: VkDescriptorPool)
        ensures
            pool == self.spec_pool(),
    {
        self.pool
    }

    pub fn set_layout(&self) -> (set_layout: VkDescriptorSetLayout)
        ensures
            set_layout == self.spec_set_layout(),
    {
        self.set_layout
    }

    /// How many sets the rebuilt pool must hold: one per texture, and one for
    /// the white stand-in, a full set of its own.
    pub fn descriptor_capacity(&self) -> (capacity: u32)
        requires
            (self.spec_textures().len() as u32) < u32::MAX,
        ensures
            capacity == (self.spec_textures().len() as u32) + 1,
    {
        self.textures.len() as u32 + 1
    }

    /// The image view and sampler each set of a rebuilt pool describes, in the
    /// order the sets are allocated: every texture, then the white stand-in.
    pub fn descriptor_targets(&self) -> (targets: Vec<(VkImageView, VkSampler)>)
        ensures
            targets@.len() == self.spec_textures().len() + 1,
            forall|i: int|
                0 <= i < self.spec_textures().len() ==> targets@[i] == (
                    self.spec_textures()[i].image.spec_view(),
                    self.spec_textures()[i].sampler,
                ),
            targets@[self.spec_textures().len() as int] == (
                self.spec_white().image.spec_view(),
                self.spec_white().sampler,
            ),
    {
        let mut targets: Vec<(VkImageView, VkSampler)> = Vec::new();
        let mut i: usize = 0;
        while i < self.textures.len()
            invariant
                i <= self.spec_textures().len(),
                targets@.len() == i,
                forall|j: int|
                    0 <= j < i ==> targets@[j] == (
                        self.spec_textures()[j].image.spec_view(),
                        self.spec_textures()[j].sampler,
                    ),
            decreases self.spec_textures().len() - i,
        {
            let texture = &self.textures[i];
            targets.push((texture.image.view(), texture.sampler));
            i = i + 1;
        }
        targets.push((self.white.image.view(), self.white.sampler));
        targets
    }

    /// Installs a rebuilt pool and its sets, in the order of
    /// `descriptor_targets`: the old sets died with the old pool, so every
    /// slot, old ones included, gets a new set.
    pub fn install_descriptor_sets(&mut self, pool: VkDescriptorPool, sets: &[VkDescriptorSet])
        requires
            sets@.len() == old(self).spec_textures().len() + 1,
        ensures
            final(self).spec_pool() == pool,
            final(self).spec_meshes() == old(self).spec_meshes(),
            final(self).spec_set_layout() == old(self).spec_set_layout(),
            final(self).spec_textures().len() == old(self).spec_textures().len(),
            forall|i: int|
                0 <= i < old(self).spec_textures().len() ==> #[trigger] final(self).spec_textures()[i]
                    == (GpuTexture { set: sets@[i], ..old(self).spec_textures()[i] }),
            final(self).spec_white() == (GpuTexture {
                set: sets@[old(self).spec_textures().len() as int],
                ..old(self).spec_white()
            }),
    {
        self.pool = pool;
        let count = self.textures.len();
        let mut i: usize = 0;
        while i < count
            invariant
                count == old(self).spec_textures().len(),
                sets@.len() == count + 1,
                i <= count,
                self.textures@.len() == count,
                self.meshes@ == old(self).spec_meshes(),
                self.white == old(self).spec_white(),
                self.pool == pool,
                self.set_layout == old(self).spec_set_layout(),
                forall|j: int|
                    0 <= j < i ==> #[trigger] self.textures@[j] == (GpuTexture {
                        set: sets@[j],
                        ..old(self).spec_textures()[j]
                    }),
                forall|j: int| i <= j < count ==> #[trigger] self.textures@[j] == old(self).spec_textures()[j],
            decreases count - i,
        {
            let mut texture = self.textures.remove(i);
            texture.set = sets[i];
            self.textures.insert(i, texture);
            i = i + 1;
        }
        self.white.set = sets[count];
    }

    /// Gives up the arena's handles for destruction: the meshes, the textures,
    /// the white stand-in and the pool. The set layout is not the arena's own.
    pub fn into_parts(self) -> (parts: (Vec<Option<GpuMesh>>, Vec<GpuTexture>, GpuTexture, VkDescriptorPool))
        ensures
            parts.0@ == self.spec_meshes(),
            parts.1@ == self.spec_textures(),
            parts.2 == self.spec_white(),
            parts.3 == self.spec_pool(),
    {
        (self.meshes, self.textures, self.white, self.pool)
    }
}

/// A mesh with no vertex or no triangle has nothing to upload.
pub fn mesh_is_drawable(vertex_count: usize, triangle_count: usize) -> (drawable: bool)
    ensures
        drawable <==> vertex_count > 0 && triangle_count > 0,
{
    !(triangle_count == 0 || vertex_count == 0)
}

/// The index buffer of a mesh: its triangles' corners in order, each widened
/// from `usize` into the four bytes of `VK_INDEX_TYPE_UINT32`.
pub fn triangle_indices(triangles: &[[usize; 3]]) -> (indices: Vec<u32>)
    ensures
        indices@.len() == 3 * triangles@.len(),
        forall|t: int, k: int|
            0 <= t < triangles@.len() && 0 <= k < 3 ==> indices@[3 * t + k] == triangles@[t]@[k] as u32,
{
    let mut indices: Vec<u32> = Vec::new();
    let mut t: usize = 0;
    while t < triangles.len()
        invariant
            t <= triangles@.len(),
            indices@.len() == 3 * t,
            forall|s: int, k: int|
                0 <= s < t && 0 <= k < 3 ==> indices@[3 * s + k] == triangles@[s]@[k] as u32,
        decreases triangles@.len() - t,
    {
        let triangle = triangles[t];
        indices.push(triangle[0] as u32);
        indices.push(triangle[1] as u32);
        indices.push(triangle[2] as u32);
        t = t + 1;
    }
    indices
}

} // verus!
