//! The sampler's settings, from a texture's filtering choices.

use vstd::prelude::*;
use crate::image::{mip_level_count, spec_longer_side, spec_mip_levels};
use crate::vk_types::{VkBool32, VkEnum, VK_FALSE, VK_SAMPLER_ADDRESS_MODE_REPEAT, VK_TRUE};

verus! {

pub const VK_FILTER_NEAREST: VkEnum = 0;
pub const VK_FILTER_LINEAR: VkEnum = 1;
pub const VK_SAMPLER_MIPMAP_MODE_NEAREST: VkEnum = 0;
pub const VK_SAMPLER_MIPMAP_MODE_LINEAR: VkEnum = 1;

/// The largest anisotropy every device that supports the feature must accept.
pub const MIN_GUARANTEED_MAX_ANISOTROPY: u32 = 16;

/// Filtering when a texel covers several pixels.
#[derive(Clone, Copy, Debug, PartialEq, Eq, Structural)]
pub enum Magnify {
    Nearest,
    Linear,
}

/// Filtering when a pixel covers several texels.
#[derive(Clone, Copy, Debug, PartialEq, Eq, Structural)]
pub enum Minify {
    Nearest,
    Linear,
    Mipmapped,
    Anisotropic { max_samples: u32 },
}

/// The levels a texture is uploaded with: a full pyramid when minification
/// reads between levels, level 0 alone otherwise.
pub fn pyramid_levels(minify: Minify, width: u32, height: u32) -> (levels: u32)
    ensures
        levels == match minify {
            Minify::Nearest | Minify::Linear => 1,
            Minify::Mipmapped | Minify::Anisotropic { .. } => spec_mip_levels(spec_longer_side(width, height)),
        },
{
    match minify {
        Minify::Nearest | Minify::Linear => 1,
        Minify::Mipmapped | Minify::Anisotropic { .. } => mip_level_count(width, height),
    }
}

/// The sampler's filters, mipmap mode and anisotropy.
#[derive(Clone, Copy, Debug, PartialEq, Eq, Structural)]
pub struct SamplerSettings {
    pub mag_filter: VkEnum,
    pub min_filter: VkEnum,
    pub mipmap_mode: VkEnum,
    pub anisotropy_enable: VkBool32,
    /// The maximum anisotropy, 1 when it is off.
    pub max_anisotropy: u32,
    /// The highest level of detail: the number of levels in the pyramid.
    pub max_lod: u32,
    /// How coordinates outside [0, 1] read, the same along u, v and w.
    pub address_mode: VkEnum,
}

/// Anisotropic filtering only when it was asked for with more than one sample
/// and the device enabled the feature, capped at what every such device
/// accepts. Levels are blended linearly when there is a pyramid at all.
pub fn sampler_settings(
    magnify: Magnify,
    minify: Minify,
    mip_levels: u32,
    anisotropy_supported: bool,
) -> (settings: SamplerSettings)
    ensures
        settings.mag_filter == match magnify {
            Magnify::Nearest => VK_FILTER_NEAREST,
            Magnify::Linear => VK_FILTER_LINEAR,
        },
        settings.min_filter == match minify {
            Minify::Nearest => VK_FILTER_NEAREST,
            _ => VK_FILTER_LINEAR,
        },
        settings.mipmap_mode == if mip_levels > 1 {
            VK_SAMPLER_MIPMAP_MODE_LINEAR
        } else {
            VK_SAMPLER_MIPMAP_MODE_NEAREST
        },
        settings.max_lod == mip_levels,
        // The texture repeats: a UV of 1.25 reads where 0.25 does.
        settings.address_mode == VK_SAMPLER_ADDRESS_MODE_REPEAT,
        match minify {
            Minify::Anisotropic { max_samples } => anisotropy_supported && max_samples > 1,
            _ => false,
        } ==> settings.anisotropy_enable == VK_TRUE && settings.max_anisotropy == match minify {
            Minify::Anisotropic { max_samples } => if max_samples < MIN_GUARANTEED_MAX_ANISOTROPY {
                max_samples
            } else {
                MIN_GUARANTEED_MAX_ANISOTROPY
            },
            _ => 1,
        },
        !match minify {
            Minify::Anisotropic { max_samples } => anisotropy_supported && max_samples > 1,
            _ => false,
        } ==> settings.anisotropy_enable == VK_FALSE && settings.max_anisotropy == 1,
{
    let mag_filter = match magnify {
        Magnify::Nearest => VK_FILTER_NEAREST,
        Magnify::Linear => VK_FILTER_LINEAR,
    };
    let min_filter = match minify {
        Minify::Nearest => VK_FILTER_NEAREST,
        _ => VK_FILTER_LINEAR,
    };
    let (anisotropy_enable, max_anisotropy) = match minify {
        Minify::Anisotropic { max_samples } => {
            if anisotropy_supported && max_samples > 1 {
                (VK_TRUE, max_samples.min(MIN_GUARANTEED_MAX_ANISOTROPY))
            } else {
                (VK_FALSE, 1)
            }
        },
        _ => (VK_FALSE, 1),
    };
    SamplerSettings {
        mag_filter,
        min_filter,
        mipmap_mode: if mip_levels > 1 {
            VK_SAMPLER_MIPMAP_MODE_LINEAR
        } else {
            VK_SAMPLER_MIPMAP_MODE_NEAREST
        },
        anisotropy_enable,
        max_anisotropy,
        max_lod: mip_levels,
        address_mode: VK_SAMPLER_ADDRESS_MODE_REPEAT,
    }
}

} // verus!
