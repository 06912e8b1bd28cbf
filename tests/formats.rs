use jay::error::VulkanError;
use jay::format::{
    advertise_formats, check_xrgb8888, Format, MaxExtents, VulkanFormat, VulkanModifier, ARGB8888_DRM,
    XRGB8888_DRM,
};

fn xrgb() -> Format {
    Format { drm: XRGB8888_DRM, vk_format: 44, bpp: 4, has_alpha: false }
}

fn argb() -> Format {
    Format { drm: ARGB8888_DRM, vk_format: 44, bpp: 4, has_alpha: true }
}

fn ext() -> Option<MaxExtents> {
    Some(MaxExtents { width: 4096, height: 4096 })
}

fn modifier(m: u64, tex: bool, render: bool) -> VulkanModifier {
    VulkanModifier {
        modifier: m,
        planes: 1,
        texture_max_extents: if tex { ext() } else { None },
        render_max_extents: if render { ext() } else { None },
        supports_disjoint: false,
    }
}

#[test]
fn advertised_modifiers_follow_extent_bounds() {
    let table = vec![VulkanFormat {
        format: xrgb(),
        modifiers: vec![modifier(0, true, true), modifier(1, true, false), modifier(2, false, true), modifier(3, false, false)],
    }];
    let formats = advertise_formats(&table);
    let f = formats.get(&XRGB8888_DRM).expect("xrgb advertised");
    assert_eq!(f.read_modifiers, vec![0, 1]);
    assert_eq!(f.write_modifiers, vec![0, 2]);
    assert_eq!(f.format, xrgb());
}

#[test]
fn every_device_format_is_advertised_once() {
    let table = vec![
        VulkanFormat { format: xrgb(), modifiers: vec![modifier(0, true, true)] },
        VulkanFormat { format: argb(), modifiers: vec![modifier(5, true, false)] },
    ];
    let formats = advertise_formats(&table);
    assert_eq!(formats.len(), 2);
    assert_eq!(formats.get(&ARGB8888_DRM).unwrap().read_modifiers, vec![5]);
    assert!(formats.get(&ARGB8888_DRM).unwrap().write_modifiers.is_empty());
    assert!(formats.get(&0x1234).is_none());
}

#[test]
fn xrgb8888_must_be_sampleable_and_renderable() {
    let good = vec![VulkanFormat { format: xrgb(), modifiers: vec![modifier(1, true, false), modifier(2, false, true)] }];
    assert_eq!(check_xrgb8888(&good), Ok(()));
    let no_render = vec![VulkanFormat { format: xrgb(), modifiers: vec![modifier(1, true, false)] }];
    assert_eq!(check_xrgb8888(&no_render), Err(VulkanError::XRGB8888));
    let missing = vec![VulkanFormat { format: argb(), modifiers: vec![modifier(1, true, true)] }];
    assert_eq!(check_xrgb8888(&missing), Err(VulkanError::XRGB8888));
    assert_eq!(check_xrgb8888(&vec![]), Err(VulkanError::XRGB8888));
}
