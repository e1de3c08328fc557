use xd_engine::sampler::{
    pyramid_levels, sampler_settings, Magnify, Minify, SamplerSettings, VK_FILTER_LINEAR, VK_FILTER_NEAREST,
    VK_SAMPLER_MIPMAP_MODE_LINEAR, VK_SAMPLER_MIPMAP_MODE_NEAREST,
};
use xd_engine::vk_types::{VK_FALSE, VK_SAMPLER_ADDRESS_MODE_REPEAT, VK_TRUE};

#[test]
fn nearest_filtering_without_a_pyramid() {
    assert_eq!(
        sampler_settings(Magnify::Nearest, Minify::Nearest, 1, true),
        SamplerSettings {
            mag_filter: VK_FILTER_NEAREST,
            min_filter: VK_FILTER_NEAREST,
            mipmap_mode: VK_SAMPLER_MIPMAP_MODE_NEAREST,
            anisotropy_enable: VK_FALSE,
            max_anisotropy: 1,
            max_lod: 1,
            address_mode: VK_SAMPLER_ADDRESS_MODE_REPEAT,
        }
    );
}

#[test]
fn a_pyramid_is_blended_linearly() {
    let settings = sampler_settings(Magnify::Linear, Minify::Mipmapped, 7, false);
    assert_eq!(settings.mag_filter, VK_FILTER_LINEAR);
    assert_eq!(settings.min_filter, VK_FILTER_LINEAR);
    assert_eq!(settings.mipmap_mode, VK_SAMPLER_MIPMAP_MODE_LINEAR);
    assert_eq!(settings.max_lod, 7);
    assert_eq!(settings.anisotropy_enable, VK_FALSE);
}

#[test]
fn anisotropy_is_capped_at_what_every_device_accepts() {
    let settings = sampler_settings(Magnify::Linear, Minify::Anisotropic { max_samples: 64 }, 5, true);
    assert_eq!((settings.anisotropy_enable, settings.max_anisotropy), (VK_TRUE, 16));
    let settings = sampler_settings(Magnify::Linear, Minify::Anisotropic { max_samples: 4 }, 5, true);
    assert_eq!((settings.anisotropy_enable, settings.max_anisotropy), (VK_TRUE, 4));
}

#[test]
fn anisotropy_needs_the_feature_and_more_than_one_sample() {
    let settings = sampler_settings(Magnify::Linear, Minify::Anisotropic { max_samples: 8 }, 5, false);
    assert_eq!((settings.anisotropy_enable, settings.max_anisotropy), (VK_FALSE, 1));
    let settings = sampler_settings(Magnify::Linear, Minify::Anisotropic { max_samples: 1 }, 5, true);
    assert_eq!((settings.anisotropy_enable, settings.max_anisotropy), (VK_FALSE, 1));
    assert_eq!(settings.min_filter, VK_FILTER_LINEAR);
}

#[test]
fn only_minification_between_levels_gets_a_pyramid() {
    assert_eq!(pyramid_levels(Minify::Nearest, 64, 64), 1);
    assert_eq!(pyramid_levels(Minify::Linear, 64, 64), 1);
    assert_eq!(pyramid_levels(Minify::Mipmapped, 64, 8), 7);
    assert_eq!(pyramid_levels(Minify::Anisotropic { max_samples: 8 }, 100, 3), 7);
}

#[test]
fn the_texture_repeats_along_every_axis() {
    for minify in [Minify::Nearest, Minify::Linear, Minify::Mipmapped, Minify::Anisotropic { max_samples: 4 }] {
        assert_eq!(sampler_settings(Magnify::Linear, minify, 3, true).address_mode, VK_SAMPLER_ADDRESS_MODE_REPEAT);
    }
    assert_eq!(VK_SAMPLER_ADDRESS_MODE_REPEAT, 0);
}
