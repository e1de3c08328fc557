//! Textures on the GPU: how many mip levels an image gets, and the exact
//! sequence of layout transitions, copies and blits that uploads its texels
//! and builds the rest of the pyramid on the device.
//!
//! The commands themselves are recorded by the caller; this module decides
//! which ones, in which order and with which arguments, and proves that the
//! order is sound: every level is in the layout each command expects, and the
//! upload leaves every level readable by the shader.

use vstd::prelude::*;
use crate::sampler::VK_FILTER_LINEAR;
use crate::vk_types::{
    VkEnum, VkFlags, VK_ACCESS_SHADER_READ_BIT, VK_ACCESS_TRANSFER_READ_BIT,
    VK_ACCESS_TRANSFER_WRITE_BIT, VK_IMAGE_LAYOUT_SHADER_READ_ONLY_OPTIMAL,
    VK_IMAGE_LAYOUT_TRANSFER_DST_OPTIMAL, VK_IMAGE_LAYOUT_TRANSFER_SRC_OPTIMAL,
    VK_IMAGE_LAYOUT_UNDEFINED, VK_PIPELINE_STAGE_FRAGMENT_SHADER_BIT,
    VK_PIPELINE_STAGE_TOP_OF_PIPE_BIT, VK_PIPELINE_STAGE_TRANSFER_BIT, VkImage, VkImageView,
    VkDeviceMemory, VkBufferImageCopy, VkImageSubresourceLayers, VkOffset3D, VkExtent3D,
    VkImageSubresourceRange, VK_IMAGE_ASPECT_COLOR_BIT, ImageDescription, VK_FORMAT_R8G8B8A8_UNORM,
    VK_IMAGE_TILING_OPTIMAL, VK_IMAGE_USAGE_SAMPLED_BIT, VK_IMAGE_USAGE_TRANSFER_DST_BIT,
    VK_IMAGE_USAGE_TRANSFER_SRC_BIT, VK_MEMORY_PROPERTY_DEVICE_LOCAL_BIT, VK_SAMPLE_COUNT_1_BIT,
};

verus! {

/// Levels of a pyramid whose longest side is `n`: every level halves the
/// previous one (rounding down) and the last one is a single texel.
pub open spec fn spec_mip_levels(n: nat) -> nat
    decreases n,
{
    if n <= 1 {
        1
    } else {
        1 + spec_mip_levels(n / 2)
    }
}

/// The side the pyramid follows: the longer one, at least one texel.
pub open spec fn spec_longer_side(width: u32, height: u32) -> nat {
    let longer = if width >= height { width } else { height };
    if longer >= 1 { longer as nat } else { 1 }
}

/// `i` has its highest set bit at position `k - 1`.
proof fn lemma_mip_levels_of_top_bit(i: u32, k: u32)
    requires
        1 <= k <= 32,
        (i >> (k - 1u32) as u32) & 1u32 == 1u32,
        k == 32 || i >> k == 0u32,
    ensures
        spec_mip_levels(i as nat) == k as nat,
    decreases k,
{
    if k == 1 {
        assert(i == 1u32) by (bit_vector)
            requires
                (i >> 0u32) & 1u32 == 1u32,
                i >> 1u32 == 0u32,
        ;
    } else {
        let j = i >> 1u32;
        assert(j == i / 2) by (bit_vector)
            requires
                j == i >> 1u32,
        ;
        assert(i >= 2u32) by (bit_vector)
            requires
                2 <= k <= 32,
                (i >> (k - 1u32) as u32) & 1u32 == 1u32,
        ;
        assert((j >> (k - 2) as u32) & 1u32 == 1u32) by (bit_vector)
            requires
                j == i >> 1u32,
                2 <= k <= 32,
                (i >> (k - 1u32) as u32) & 1u32 == 1u32,
        ;
        assert(j >> (k - 1u32) as u32 == 0u32) by (bit_vector)
            requires
                j == i >> 1u32,
                2 <= k <= 32,
                k == 32 || i >> k == 0u32,
        ;
        lemma_mip_levels_of_top_bit(j, (k - 1u32) as u32);
    }
}

/// How many levels fit in the pyramid of an image of this size: the binary
/// logarithm of the LONGER side plus level zero. The shorter side stops
/// halving at one texel while the longer one goes on, so a 64x8 image ends in
/// 4x1, 2x1, 1x1.
pub fn mip_level_count(width: u32, height: u32) -> (count: u32)
    ensures
        count as nat == spec_mip_levels(spec_longer_side(width, height)),
        1 <= count <= 32,
{
    let longer = width.max(height).max(1);
    let zeros = longer.leading_zeros();
    proof {
        vstd::std_specs::bits::axiom_u32_leading_zeros(longer);
        let k = (32u32 - zeros) as u32;
        assert(zeros < 32);
        assert((longer >> (31u32 - zeros) as u32) & 1u32 != 0u32);
        assert((longer >> (k - 1u32) as u32) & 1u32 == 1u32) by (bit_vector)
            requires
                zeros < 32,
                k == (32u32 - zeros) as u32,
                (longer >> (31u32 - zeros) as u32) & 1u32 != 0u32,
        ;
        assert(k == 32 || longer >> k == 0u32) by (bit_vector)
            requires
                zeros < 32,
                k == (32u32 - zeros) as u32,
                longer >> (32u32 - zeros) as u32 == 0u32,
        ;
        lemma_mip_levels_of_top_bit(longer, k);
    }
    32 - zeros
}

/// Access masks and pipeline stages of the barrier for one layout transition.
#[derive(Clone, Copy, Debug, PartialEq, Eq, Structural)]
pub struct BarrierMasks {
    pub src_access_mask: VkFlags,
    pub dst_access_mask: VkFlags,
    pub src_stage_mask: VkFlags,
    pub dst_stage_mask: VkFlags,
}

/// The four transitions an upload needs, and the only ones given stages and
/// access masks here.
pub open spec fn is_supported_transition(old_layout: VkEnum, new_layout: VkEnum) -> bool {
    ||| old_layout == VK_IMAGE_LAYOUT_UNDEFINED && new_layout == VK_IMAGE_LAYOUT_TRANSFER_DST_OPTIMAL
    ||| old_layout == VK_IMAGE_LAYOUT_TRANSFER_DST_OPTIMAL && new_layout == VK_IMAGE_LAYOUT_TRANSFER_SRC_OPTIMAL
    ||| old_layout == VK_IMAGE_LAYOUT_TRANSFER_DST_OPTIMAL && new_layout == VK_IMAGE_LAYOUT_SHADER_READ_ONLY_OPTIMAL
    ||| old_layout == VK_IMAGE_LAYOUT_TRANSFER_SRC_OPTIMAL && new_layout == VK_IMAGE_LAYOUT_SHADER_READ_ONLY_OPTIMAL
}

/// Whether `layout_transition_masks` knows this transition.
pub fn supports_transition(old_layout: VkEnum, new_layout: VkEnum) -> (supported: bool)
    ensures
        supported == is_supported_transition(old_layout, new_layout),
{
    (old_layout == VK_IMAGE_LAYOUT_UNDEFINED && new_layout == VK_IMAGE_LAYOUT_TRANSFER_DST_OPTIMAL)
        || (old_layout == VK_IMAGE_LAYOUT_TRANSFER_DST_OPTIMAL && new_layout == VK_IMAGE_LAYOUT_TRANSFER_SRC_OPTIMAL)
        || (old_layout == VK_IMAGE_LAYOUT_TRANSFER_DST_OPTIMAL && new_layout
        == VK_IMAGE_LAYOUT_SHADER_READ_ONLY_OPTIMAL) || (old_layout == VK_IMAGE_LAYOUT_TRANSFER_SRC_OPTIMAL
        && new_layout == VK_IMAGE_LAYOUT_SHADER_READ_ONLY_OPTIMAL)
}

/// The barrier of one layout transition of a range of mip levels.
///
/// - nothing to wait for → transfer write, before the copy into the image;
/// - transfer write → transfer read, inside the transfer stage: a level just
///   written by a copy or a blit is about to be read by the next blit;
/// - transfer write or read → shader read in the fragment stage: the level is
///   finished and only the shader reads it from now on.
pub fn layout_transition_masks(old_layout: VkEnum, new_layout: VkEnum) -> (masks: BarrierMasks)
    requires
        is_supported_transition(old_layout, new_layout),
    ensures
        old_layout == VK_IMAGE_LAYOUT_UNDEFINED ==> masks == (BarrierMasks {
            src_access_mask: 0,
            dst_access_mask: VK_ACCESS_TRANSFER_WRITE_BIT,
            src_stage_mask: VK_PIPELINE_STAGE_TOP_OF_PIPE_BIT,
            dst_stage_mask: VK_PIPELINE_STAGE_TRANSFER_BIT,
        }),
        old_layout == VK_IMAGE_LAYOUT_TRANSFER_DST_OPTIMAL && new_layout
            == VK_IMAGE_LAYOUT_TRANSFER_SRC_OPTIMAL ==> masks == (BarrierMasks {
            src_access_mask: VK_ACCESS_TRANSFER_WRITE_BIT,
            dst_access_mask: VK_ACCESS_TRANSFER_READ_BIT,
            src_stage_mask: VK_PIPELINE_STAGE_TRANSFER_BIT,
            dst_stage_mask: VK_PIPELINE_STAGE_TRANSFER_BIT,
        }),
        old_layout == VK_IMAGE_LAYOUT_TRANSFER_DST_OPTIMAL && new_layout
            == VK_IMAGE_LAYOUT_SHADER_READ_ONLY_OPTIMAL ==> masks == (BarrierMasks {
            src_access_mask: VK_ACCESS_TRANSFER_WRITE_BIT,
            dst_access_mask: VK_ACCESS_SHADER_READ_BIT,
            src_stage_mask: VK_PIPELINE_STAGE_TRANSFER_BIT,
            dst_stage_mask: VK_PIPELINE_STAGE_FRAGMENT_SHADER_BIT,
        }),
        old_layout == VK_IMAGE_LAYOUT_TRANSFER_SRC_OPTIMAL ==> masks == (BarrierMasks {
            src_access_mask: VK_ACCESS_TRANSFER_READ_BIT,
            dst_access_mask: VK_ACCESS_SHADER_READ_BIT,
            src_stage_mask: VK_PIPELINE_STAGE_TRANSFER_BIT,
            dst_stage_mask: VK_PIPELINE_STAGE_FRAGMENT_SHADER_BIT,
        }),
{
    if old_layout == VK_IMAGE_LAYOUT_UNDEFINED {
        BarrierMasks {
            src_access_mask: 0,
            dst_access_mask: VK_ACCESS_TRANSFER_WRITE_BIT,
            src_stage_mask: VK_PIPELINE_STAGE_TOP_OF_PIPE_BIT,
            dst_stage_mask: VK_PIPELINE_STAGE_TRANSFER_BIT,
        }
    } else if old_layout == VK_IMAGE_LAYOUT_TRANSFER_DST_OPTIMAL && new_layout
        == VK_IMAGE_LAYOUT_TRANSFER_SRC_OPTIMAL {
        BarrierMasks {
            src_access_mask: VK_ACCESS_TRANSFER_WRITE_BIT,
            dst_access_mask: VK_ACCESS_TRANSFER_READ_BIT,
            src_stage_mask: VK_PIPELINE_STAGE_TRANSFER_BIT,
            dst_stage_mask: VK_PIPELINE_STAGE_TRANSFER_BIT,
        }
    } else if old_layout == VK_IMAGE_LAYOUT_TRANSFER_DST_OPTIMAL {
        BarrierMasks {
            src_access_mask: VK_ACCESS_TRANSFER_WRITE_BIT,
            dst_access_mask: VK_ACCESS_SHADER_READ_BIT,
            src_stage_mask: VK_PIPELINE_STAGE_TRANSFER_BIT,
            dst_stage_mask: VK_PIPELINE_STAGE_FRAGMENT_SHADER_BIT,
        }
    } else {
        BarrierMasks {
            src_access_mask: VK_ACCESS_TRANSFER_READ_BIT,
            dst_access_mask: VK_ACCESS_SHADER_READ_BIT,
            src_stage_mask: VK_PIPELINE_STAGE_TRANSFER_BIT,
            dst_stage_mask: VK_PIPELINE_STAGE_FRAGMENT_SHADER_BIT,
        }
    }
}

/// One command of a texture upload, recorded into a one-time command buffer.
#[derive(Clone, Copy, Debug, PartialEq, Eq, Structural)]
pub enum UploadStep {
    /// A barrier moving mip levels `base_mip_level .. base_mip_level +
    /// level_count` from one layout to another.
    Transition { old_layout: VkEnum, new_layout: VkEnum, base_mip_level: u32, level_count: u32 },
    /// Copy of the staging buffer's texels into level 0.
    CopyLevelZero { width: u32, height: u32 },
    /// A blit of one whole level into the next one, with `filter` between
    /// texels. Extents are the far corners of the two regions, the near
    /// corners being the origin.
    Blit {
        src_level: u32,
        src_width: i32,
        src_height: i32,
        dst_level: u32,
        dst_width: i32,
        dst_height: i32,
        filter: VkEnum,
    },
}

/// The side of the next level: half, rounding down, but never below one
/// texel. The same as `(x / 2).max(1)`.
pub open spec fn spec_halved_side(x: i32) -> i32 {
    if x < 2 {
        1
    } else {
        (x / 2) as i32
    }
}

/// A side of mip level `level` of an image whose level 0 has side `side`.
pub open spec fn spec_level_side(side: i32, level: nat) -> i32
    decreases level,
{
    if level == 0 {
        side
    } else {
        spec_halved_side(spec_level_side(side, (level - 1) as nat))
    }
}

/// The number of levels an upload builds: zero levels are not a thing, so it
/// is at least one.
pub open spec fn spec_upload_levels(mip_levels: u32) -> nat {
    if mip_levels >= 1 {
        mip_levels as nat
    } else {
        1
    }
}

/// The three commands that build level `l` (from 1) of the pyramid: level
/// `l - 1` becomes a blit source, is blitted into level `l` at half its size,
/// and is handed over to the shader.
pub open spec fn is_level_build(steps: Seq<UploadStep>, width: u32, height: u32, l: int) -> bool {
    &&& steps[3 * l - 1] == UploadStep::Transition {
        old_layout: VK_IMAGE_LAYOUT_TRANSFER_DST_OPTIMAL,
        new_layout: VK_IMAGE_LAYOUT_TRANSFER_SRC_OPTIMAL,
        base_mip_level: (l - 1) as u32,
        level_count: 1,
    }
    &&& steps[3 * l] == UploadStep::Blit {
        src_level: (l - 1) as u32,
        src_width: spec_level_side(width as i32, (l - 1) as nat),
        src_height: spec_level_side(height as i32, (l - 1) as nat),
        dst_level: l as u32,
        dst_width: spec_level_side(width as i32, l as nat),
        dst_height: spec_level_side(height as i32, l as nat),
        filter: VK_FILTER_LINEAR,
    }
    &&& steps[3 * l + 1] == UploadStep::Transition {
        old_layout: VK_IMAGE_LAYOUT_TRANSFER_SRC_OPTIMAL,
        new_layout: VK_IMAGE_LAYOUT_SHADER_READ_ONLY_OPTIMAL,
        base_mip_level: (l - 1) as u32,
        level_count: 1,
    }
}

/// The upload of an image with `mip_levels` levels (at least one): every level
/// into transfer-destination layout, the texels copied into level 0, each
/// further level built from the one before, and the last level handed to the
/// shader.
pub open spec fn is_upload_plan(width: u32, height: u32, mip_levels: u32, steps: Seq<UploadStep>) -> bool {
    let n = spec_upload_levels(mip_levels) as int;
    &&& steps.len() == 3 * n
    &&& steps[0] == UploadStep::Transition {
        old_layout: VK_IMAGE_LAYOUT_UNDEFINED,
        new_layout: VK_IMAGE_LAYOUT_TRANSFER_DST_OPTIMAL,
        base_mip_level: 0,
        level_count: n as u32,
    }
    &&& steps[1] == UploadStep::CopyLevelZero { width, height }
    &&& forall|l: int| 1 <= l < n ==> #[trigger] is_level_build(steps, width, height, l)
    &&& steps[3 * n - 1] == UploadStep::Transition {
        old_layout: VK_IMAGE_LAYOUT_TRANSFER_DST_OPTIMAL,
        new_layout: VK_IMAGE_LAYOUT_SHADER_READ_ONLY_OPTIMAL,
        base_mip_level: (n - 1) as u32,
        level_count: 1,
    }
}

/// The commands that upload an image's level 0 and build the rest of its
/// pyramid on the device. Each level is built from the previous one, not from
/// level 0: a blit averages a small neighbourhood, so only a chain lets every
/// texel contribute.
pub fn upload_steps(width: u32, height: u32, mip_levels: u32) -> (steps: Vec<UploadStep>)
    ensures
        is_upload_plan(width, height, mip_levels, steps@),
{
    // Zero levels Vulkan would not accept; one means "no pyramid".
    let levels = mip_levels.max(1);
    let mut steps: Vec<UploadStep> = Vec::new();
    // Every level, not only level 0: the blits write into the others, and an
    // undefined layout is no destination for a copy.
    steps.push(
        UploadStep::Transition {
            old_layout: VK_IMAGE_LAYOUT_UNDEFINED,
            new_layout: VK_IMAGE_LAYOUT_TRANSFER_DST_OPTIMAL,
            base_mip_level: 0,
            level_count: levels,
        },
    );
    steps.push(UploadStep::CopyLevelZero { width, height });

    let mut level_width = width as i32;
    let mut level_height = height as i32;
    let mut level: u32 = 1;
    while level < levels
        invariant
            levels as nat == spec_upload_levels(mip_levels),
            1 <= level <= levels,
            steps@.len() == 3 * level - 1,
            steps@[0] == (UploadStep::Transition {
                old_layout: VK_IMAGE_LAYOUT_UNDEFINED,
                new_layout: VK_IMAGE_LAYOUT_TRANSFER_DST_OPTIMAL,
                base_mip_level: 0,
                level_count: levels,
            }),
            steps@[1] == (UploadStep::CopyLevelZero { width, height }),
            forall|l: int| 1 <= l < level ==> #[trigger] is_level_build(steps@, width, height, l),
            level_width == spec_level_side(width as i32, (level - 1) as nat),
            level_height == spec_level_side(height as i32, (level - 1) as nat),
        decreases levels - level,
    {
        let ghost before = steps@;
        steps.push(
            UploadStep::Transition {
                old_layout: VK_IMAGE_LAYOUT_TRANSFER_DST_OPTIMAL,
                new_layout: VK_IMAGE_LAYOUT_TRANSFER_SRC_OPTIMAL,
                base_mip_level: level - 1,
                level_count: 1,
            },
        );
        // A side that reached one texel stops halving while the other goes
        // on: 64x8 ends in 4x1, 2x1, 1x1.
        let next_width = if level_width < 2 { 1 } else { level_width / 2 };
        let next_height = if level_height < 2 { 1 } else { level_height / 2 };
        steps.push(
            UploadStep::Blit {
                src_level: level - 1,
                src_width: level_width,
                src_height: level_height,
                dst_level: level,
                dst_width: next_width,
                dst_height: next_height,
                // Each texel of the smaller level averages the four it
                // covers.
                filter: VK_FILTER_LINEAR,
            },
        );
        // The source level has done its work and stays readable from now on.
        steps.push(
            UploadStep::Transition {
                old_layout: VK_IMAGE_LAYOUT_TRANSFER_SRC_OPTIMAL,
                new_layout: VK_IMAGE_LAYOUT_SHADER_READ_ONLY_OPTIMAL,
                base_mip_level: level - 1,
                level_count: 1,
            },
        );
        proof {
            assert forall|l: int| 1 <= l < level + 1 implies #[trigger] is_level_build(
                steps@,
                width,
                height,
                l,
            ) by {
                if l < level {
                    assert(is_level_build(before, width, height, l));
                }
            }
        }
        level_width = next_width;
        level_height = next_height;
        level = level + 1;
    }
    // The last level was never a blit source and is still a transfer
    // destination.
    let ghost body = steps@;
    steps.push(
        UploadStep::Transition {
            old_layout: VK_IMAGE_LAYOUT_TRANSFER_DST_OPTIMAL,
            new_layout: VK_IMAGE_LAYOUT_SHADER_READ_ONLY_OPTIMAL,
            base_mip_level: levels - 1,
            level_count: 1,
        },
    );
    proof {
        let n = levels as int;
        assert forall|l: int| 1 <= l < n implies #[trigger] is_level_build(steps@, width, height, l) by {
            assert(is_level_build(body, width, height, l));
            assert(steps@[3 * l - 1] == body[3 * l - 1]);
            assert(steps@[3 * l] == body[3 * l]);
            assert(steps@[3 * l + 1] == body[3 * l + 1]);
        }
    }
    steps
}

/// Every one of `n` levels in the same layout.
pub open spec fn uniform_layouts(n: nat, layout: VkEnum) -> Seq<VkEnum> {
    Seq::new(n, |i: int| layout)
}

/// The layouts of the levels after one upload command, or `None` when the
/// command is not valid in the current layouts: a transition must be a
/// supported one, of levels that exist and are all in its old layout; the
/// copy writes level 0, which must be a transfer destination; a blit reads a
/// transfer source and writes a transfer destination.
pub open spec fn layouts_after(layouts: Seq<VkEnum>, step: UploadStep) -> Option<Seq<VkEnum>> {
    match step {
        UploadStep::Transition { old_layout, new_layout, base_mip_level, level_count } => {
            let lo = base_mip_level as int;
            let hi = base_mip_level + level_count;
            if is_supported_transition(old_layout, new_layout) && hi <= layouts.len() && (forall|i: int|
                lo <= i < hi ==> layouts[i] == old_layout) {
                Some(Seq::new(layouts.len(), |i: int| if lo <= i < hi { new_layout } else { layouts[i] }))
            } else {
                None
            }
        },
        UploadStep::CopyLevelZero { .. } => {
            if layouts.len() > 0 && layouts[0] == VK_IMAGE_LAYOUT_TRANSFER_DST_OPTIMAL {
                Some(layouts)
            } else {
                None
            }
        },
        UploadStep::Blit { src_level, dst_level, .. } => {
            if src_level < layouts.len() && dst_level < layouts.len() && layouts[src_level as int]
                == VK_IMAGE_LAYOUT_TRANSFER_SRC_OPTIMAL && layouts[dst_level as int]
                == VK_IMAGE_LAYOUT_TRANSFER_DST_OPTIMAL {
                Some(layouts)
            } else {
                None
            }
        },
    }
}

/// The layouts after running `steps` in order from `layouts`, or `None` if
/// some command is not valid where it runs.
pub open spec fn run_upload(layouts: Seq<VkEnum>, steps: Seq<UploadStep>) -> Option<Seq<VkEnum>>
    decreases steps.len(),
{
    if steps.len() == 0 {
        Some(layouts)
    } else {
        match run_upload(layouts, steps.drop_last()) {
            Some(before) => layouts_after(before, steps.last()),
            None => None,
        }
    }
}

proof fn lemma_run_prefix(layouts: Seq<VkEnum>, steps: Seq<UploadStep>, m: int)
    requires
        0 <= m < steps.len(),
    ensures
        run_upload(layouts, steps.take(m + 1)) == match run_upload(layouts, steps.take(m)) {
            Some(before) => layouts_after(before, steps[m]),
            None => None,
        },
{
    assert(steps.take(m + 1).drop_last() =~= steps.take(m));
    assert(steps.take(m + 1).last() == steps[m]);
}

/// Levels below `done` readable by the shader, the others transfer
/// destinations.
pub open spec fn layouts_built_up_to(n: nat, done: int) -> Seq<VkEnum> {
    Seq::new(
        n,
        |i: int|
            if i < done {
                VK_IMAGE_LAYOUT_SHADER_READ_ONLY_OPTIMAL
            } else {
                VK_IMAGE_LAYOUT_TRANSFER_DST_OPTIMAL
            },
    )
}

/// After the commands of the first `j` built levels, the levels below `j` are
/// readable and the others still transfer destinations.
proof fn lemma_levels_built(width: u32, height: u32, mip_levels: u32, steps: Seq<UploadStep>, j: int)
    requires
        is_upload_plan(width, height, mip_levels, steps),
        0 <= j < spec_upload_levels(mip_levels),
    ensures
        run_upload(
            uniform_layouts(spec_upload_levels(mip_levels), VK_IMAGE_LAYOUT_UNDEFINED),
            steps.take(3 * j + 2),
        ) == Some(layouts_built_up_to(spec_upload_levels(mip_levels), j)),
    decreases j,
{
    let n = spec_upload_levels(mip_levels);
    let ni = n as int;
    let start = uniform_layouts(n, VK_IMAGE_LAYOUT_UNDEFINED);
    if j == 0 {
        // The first transition and the copy: every level a transfer
        // destination.
        assert(steps.take(0) =~= Seq::<UploadStep>::empty());
        lemma_run_prefix(start, steps, 0);
        assert(Seq::new(
            n,
            |i: int| if 0 <= i < ni { VK_IMAGE_LAYOUT_TRANSFER_DST_OPTIMAL } else { start[i] },
        ) =~= layouts_built_up_to(n, 0));
        lemma_run_prefix(start, steps, 1);
    } else {
        let k = j - 1;
        lemma_levels_built(width, height, mip_levels, steps, k);
        assert(is_level_build(steps, width, height, j));
        let before = layouts_built_up_to(n, k);
        lemma_run_prefix(start, steps, 3 * k + 2);
        let as_source = Seq::new(
            n,
            |i: int|
                if k <= i < k + 1 {
                    VK_IMAGE_LAYOUT_TRANSFER_SRC_OPTIMAL
                } else {
                    before[i]
                },
        );
        assert(run_upload(start, steps.take(3 * k + 3)) == Some(as_source));
        lemma_run_prefix(start, steps, 3 * k + 3);
        assert(run_upload(start, steps.take(3 * k + 4)) == Some(as_source));
        lemma_run_prefix(start, steps, 3 * k + 4);
        let after = Seq::new(
            n,
            |i: int|
                if k <= i < k + 1 {
                    VK_IMAGE_LAYOUT_SHADER_READ_ONLY_OPTIMAL
                } else {
                    as_source[i]
                },
        );
        assert(after =~= layouts_built_up_to(n, j));
    }
}

/// An upload plan is sound from start to end: run from a fresh image, whose
/// levels are all undefined, every command finds the levels it touches in the
/// layout it expects, every transition has its barrier masks, and at the end
/// every level of the pyramid is left readable by the shader.
pub proof fn law_upload_leaves_every_level_readable(
    width: u32,
    height: u32,
    mip_levels: u32,
    steps: Seq<UploadStep>,
)
    requires
        is_upload_plan(width, height, mip_levels, steps),
    ensures
        run_upload(
            uniform_layouts(spec_upload_levels(mip_levels), VK_IMAGE_LAYOUT_UNDEFINED),
            steps,
        ) == Some(uniform_layouts(spec_upload_levels(mip_levels), VK_IMAGE_LAYOUT_SHADER_READ_ONLY_OPTIMAL)),
{
    let n = spec_upload_levels(mip_levels);
    let ni = n as int;
    let start = uniform_layouts(n, VK_IMAGE_LAYOUT_UNDEFINED);
    lemma_levels_built(width, height, mip_levels, steps, ni - 1);
    // The last level, never a blit source, goes to the shader last.
    lemma_run_prefix(start, steps, 3 * ni - 1);
    let before = layouts_built_up_to(n, ni - 1);
    let last = Seq::new(
        n,
        |i: int|
            if ni - 1 <= i < ni {
                VK_IMAGE_LAYOUT_SHADER_READ_ONLY_OPTIMAL
            } else {
                before[i]
            },
    );
    assert(last =~= uniform_layouts(n, VK_IMAGE_LAYOUT_SHADER_READ_ONLY_OPTIMAL));
    assert(steps.take(3 * ni) =~= steps);
}

/// An image on the GPU with its memory and the view the sampler reads it
/// through.
pub struct GpuImage {
    pub view: VkImageView,
    /// Levels in the pyramid; one means no pyramid. The sampler must know the
    /// same limit.
    pub mip_levels: u32,
    image: VkImage,
    memory: VkDeviceMemory,
}

impl GpuImage {
    pub closed spec fn spec_view(&self) -> VkImageView {
        self.view
    }

    pub closed spec fn spec_mip_levels(&self) -> u32 {
        self.mip_levels
    }

    pub closed spec fn spec_image(&self) -> VkImage {
        self.image
    }

    pub closed spec fn spec_memory(&self) -> VkDeviceMemory {
        self.memory
    }

    pub fn new(view: VkImageView, mip_levels: u32, image: VkImage, memory: VkDeviceMemory) -> (gpu_image: Self)
        ensures
            gpu_image.spec_view() == view,
            gpu_image.spec_mip_levels() == mip_levels,
            gpu_image.spec_image() == image,
            gpu_image.spec_memory() == memory,
    {
        GpuImage { view, mip_levels, image, memory }
    }

    pub fn view(&self) -> (view: VkImageView)
        ensures
            view == self.spec_view(),
    {
        self.view
    }

    pub fn image(&self) -> (image: VkImage)
        ensures
            image == self.spec_image(),
    {
        self.image
    }

    pub fn memory(&self) -> (memory: VkDeviceMemory)
        ensures
            memory == self.spec_memory(),
    {
        self.memory
    }
}

/// The copy of the staging buffer into level 0: the whole image, tightly
/// packed rows, the first array layer.
pub fn level_zero_copy_region(width: u32, height: u32) -> (region: VkBufferImageCopy)
    ensures
        region == (VkBufferImageCopy {
            buffer_offset: 0,
            buffer_row_length: 0,
            buffer_image_height: 0,
            image_subresource: VkImageSubresourceLayers {
                aspect_mask: VK_IMAGE_ASPECT_COLOR_BIT,
                mip_level: 0,
                base_array_layer: 0,
                layer_count: 1,
            },
            image_offset: VkOffset3D { x: 0, y: 0, z: 0 },
            image_extent: VkExtent3D { width, height, depth: 1 },
        }),
{
    VkBufferImageCopy {
        buffer_offset: 0,
        buffer_row_length: 0,
        buffer_image_height: 0,
        image_subresource: VkImageSubresourceLayers {
            aspect_mask: VK_IMAGE_ASPECT_COLOR_BIT,
            mip_level: 0,
            base_array_layer: 0,
            layer_count: 1,
        },
        image_offset: VkOffset3D { x: 0, y: 0, z: 0 },
        image_extent: VkExtent3D { width, height, depth: 1 },
    }
}

/// The memory a texture lives in: device-local. Optimal tiling, the only one
/// the shader samples fast, is never host-visible, so the texels reach it
/// through a host-visible staging buffer and a copy on the device.
pub const TEXTURE_MEMORY_PROPERTIES: VkFlags = VK_MEMORY_PROPERTY_DEVICE_LOCAL_BIT;

/// The image a texture of `width` by `height` with `mip_levels` levels is
/// created as: RGBA8, optimal tiling, one layer, one sample, created
/// `UNDEFINED`; written by the copy and the blits (transfer destination),
/// read by the blits (transfer source) and by the shader (sampled).
pub fn texture_image_description(width: u32, height: u32, mip_levels: u32) -> (d: ImageDescription)
    ensures
        d == (ImageDescription {
            format: VK_FORMAT_R8G8B8A8_UNORM,
            width,
            height,
            depth: 1,
            mip_levels,
            array_layers: 1,
            samples: VK_SAMPLE_COUNT_1_BIT,
            tiling: VK_IMAGE_TILING_OPTIMAL,
            usage: VK_IMAGE_USAGE_TRANSFER_DST_BIT | VK_IMAGE_USAGE_TRANSFER_SRC_BIT | VK_IMAGE_USAGE_SAMPLED_BIT,
            initial_layout: VK_IMAGE_LAYOUT_UNDEFINED,
        }),
{
    ImageDescription {
        format: VK_FORMAT_R8G8B8A8_UNORM,
        width,
        height,
        depth: 1,
        mip_levels,
        array_layers: 1,
        samples: VK_SAMPLE_COUNT_1_BIT,
        tiling: VK_IMAGE_TILING_OPTIMAL,
        usage: VK_IMAGE_USAGE_TRANSFER_DST_BIT | VK_IMAGE_USAGE_TRANSFER_SRC_BIT | VK_IMAGE_USAGE_SAMPLED_BIT,
        initial_layout: VK_IMAGE_LAYOUT_UNDEFINED,
    }
}

/// The subresources a texture's view covers: ALL its levels, since levels left
/// out of the view do not exist for the shader.
pub fn texture_view_range(mip_levels: u32) -> (range: VkImageSubresourceRange)
    ensures
        range == (VkImageSubresourceRange {
            aspect_mask: VK_IMAGE_ASPECT_COLOR_BIT,
            base_mip_level: 0,
            level_count: mip_levels,
            base_array_layer: 0,
            layer_count: 1,
        }),
{
    VkImageSubresourceRange {
        aspect_mask: VK_IMAGE_ASPECT_COLOR_BIT,
        base_mip_level: 0,
        level_count: mip_levels,
        base_array_layer: 0,
        layer_count: 1,
    }
}

/// The level count does not depend on which side is the longer one.
pub proof fn law_mip_levels_follow_longer_side(width: u32, height: u32)
    ensures
        spec_longer_side(width, height) == spec_longer_side(height, width),
        width >= height && width >= 1 ==> spec_longer_side(width, height) == width,
{
}

proof fn lemma_level_side_shift(side: i32, k: nat)
    ensures
        spec_level_side(side, k + 1) == spec_level_side(spec_halved_side(side), k),
    decreases k,
{
    if k > 0 {
        lemma_level_side_shift(side, (k - 1) as nat);
        assert(spec_level_side(side, k + 1) == spec_halved_side(spec_level_side(side, k)));
        assert(spec_level_side(spec_halved_side(side), k) == spec_halved_side(
            spec_level_side(spec_halved_side(side), (k - 1) as nat),
        ));
    } else {
        assert(spec_level_side(side, 0) == side);
        assert(spec_level_side(side, 1) == spec_halved_side(spec_level_side(side, 0)));
    }
}

proof fn lemma_one_stays_one(k: nat)
    ensures
        spec_level_side(1, k) == 1,
    decreases k,
{
    if k > 0 {
        lemma_one_stays_one((k - 1) as nat);
    }
}

/// A side no longer than the longest one reaches a single texel on the last
/// level of the longest side's pyramid.
proof fn lemma_side_reaches_one(a: i32, b: nat)
    requires
        1 <= a,
        a <= b,
    ensures
        spec_level_side(a, (spec_mip_levels(b) - 1) as nat) == 1,
    decreases b,
{
    if b <= 1 {
    } else {
        let h = spec_halved_side(a);
        assert(1 <= h <= b / 2);
        lemma_side_reaches_one(h, b / 2);
        lemma_level_side_shift(a, (spec_mip_levels(b / 2) - 1) as nat);
    }
}

/// The pyramid of an image with `mip_level_count` levels ends in a single
/// texel: on its last level both sides are one texel, the shorter side having
/// stopped halving at one while the longer one went on.
pub proof fn law_last_level_is_one_texel(width: u32, height: u32)
    requires
        width >= 1,
        height >= 1,
    ensures
        spec_level_side(width as i32, (spec_mip_levels(spec_longer_side(width, height)) - 1) as nat) == 1,
        spec_level_side(height as i32, (spec_mip_levels(spec_longer_side(width, height)) - 1) as nat) == 1,
{
    let n = spec_longer_side(width, height);
    lemma_side_of_any_width_reaches_one(width, n);
    lemma_side_of_any_width_reaches_one(height, n);
}

proof fn lemma_mip_levels_at_least_two(n: nat)
    requires
        n >= 2,
    ensures
        spec_mip_levels(n) >= 2,
{
    assert(spec_mip_levels(n) == 1 + spec_mip_levels(n / 2));
}

proof fn lemma_side_of_any_width_reaches_one(side: u32, n: nat)
    requires
        side >= 1,
        side <= n,
    ensures
        spec_level_side(side as i32, (spec_mip_levels(n) - 1) as nat) == 1,
{
    if side <= 0x7FFF_FFFF {
        assert(side as i32 as int == side as int);
        lemma_side_reaches_one(side as i32, n);
    } else {
        // A side past `i32::MAX` is negative as an offset; it is clamped to
        // one texel by the first halving and stays there.
        assert((side as i32) < 0) by (bit_vector)
            requires
                side > 0x7FFF_FFFFu32,
        ;
        lemma_mip_levels_at_least_two(n);
        let k = (spec_mip_levels(n) - 2) as nat;
        lemma_level_side_shift(side as i32, k);
        lemma_one_stays_one(k);
    }
}

} // verus!
