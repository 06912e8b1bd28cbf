use jay::error::VulkanError;
use jay::format::{Format, MaxExtents, VulkanFormat, VulkanModifier, ARGB8888_DRM, XRGB8888_DRM};
use jay::image::{
    shm_layout, validate_dmabuf, DmaBuf, DmaBufPlane, DmaBufUsage, ShmLayout, VulkanImage, VulkanImageMemory,
};

fn xrgb() -> Format {
    Format { drm: XRGB8888_DRM, vk_format: 44, bpp: 4, has_alpha: false }
}

fn argb() -> Format {
    Format { drm: ARGB8888_DRM, vk_format: 50, bpp: 4, has_alpha: true }
}

fn table() -> Vec<VulkanFormat> {
    vec![VulkanFormat {
        format: xrgb(),
        modifiers: vec![
            VulkanModifier {
                modifier: 0,
                planes: 1,
                texture_max_extents: Some(MaxExtents { width: 100, height: 100 }),
                render_max_extents: Some(MaxExtents { width: 50, height: 50 }),
                supports_disjoint: false,
            },
            VulkanModifier {
                modifier: 7,
                planes: 2,
                texture_max_extents: None,
                render_max_extents: None,
                supports_disjoint: true,
            },
        ],
    }]
}

fn dmabuf(format: Format, modifier: u64, planes: usize, w: i32, h: i32, disjoint: bool) -> DmaBuf {
    DmaBuf {
        width: w,
        height: h,
        format,
        modifier,
        planes: (0..planes).map(|i| DmaBufPlane { fd: 10 + i as i32, offset: 0, stride: 256 }).collect(),
        is_disjoint: disjoint,
    }
}

#[test]
fn dmabuf_import_errors() {
    let t = table();
    assert_eq!(validate_dmabuf(&t, &dmabuf(argb(), 0, 1, 10, 10, false)), Err(VulkanError::FormatNotSupported));
    assert_eq!(validate_dmabuf(&t, &dmabuf(xrgb(), 3, 1, 10, 10, false)), Err(VulkanError::ModifierNotSupported));
    assert_eq!(validate_dmabuf(&t, &dmabuf(xrgb(), 0, 2, 10, 10, false)), Err(VulkanError::BadPlaneCount));
    assert_eq!(validate_dmabuf(&t, &dmabuf(xrgb(), 0, 1, 10, 10, true)), Err(VulkanError::DisjointNotSupported));
    assert_eq!(validate_dmabuf(&t, &dmabuf(xrgb(), 0, 1, 0, 10, false)), Err(VulkanError::NonPositiveImageSize));
    assert_eq!(validate_dmabuf(&t, &dmabuf(xrgb(), 7, 2, 10, 10, true)), Err(VulkanError::ModifierUseNotSupported));
    assert_eq!(validate_dmabuf(&t, &dmabuf(xrgb(), 0, 1, 101, 10, false)), Err(VulkanError::ImageTooLarge));
}

#[test]
fn dmabuf_roles_follow_extents() {
    let t = table();
    assert_eq!(validate_dmabuf(&t, &dmabuf(xrgb(), 0, 1, 50, 50, false)), Ok(DmaBufUsage { sampled: true, render: true }));
    assert_eq!(validate_dmabuf(&t, &dmabuf(xrgb(), 0, 1, 51, 50, false)), Ok(DmaBufUsage { sampled: true, render: false }));
    let img = VulkanImage::new_dmabuf(3, dmabuf(xrgb(), 0, 1, 51, 50, false), DmaBufUsage { sampled: true, render: false });
    assert!(img.is_undefined);
    assert!(!img.has_render_view);
    assert_eq!((img.width, img.height), (51, 50));
}

#[test]
fn shm_layout_checks() {
    let t = vec![
        VulkanFormat { format: xrgb(), modifiers: vec![] },
        VulkanFormat { format: argb(), modifiers: vec![] },
    ];
    let shm = vec![Some(MaxExtents { width: 100_000, height: 100_000 }), None];
    assert_eq!(shm_layout(&t, &shm, xrgb(), 0, 16, 64), Err(VulkanError::NonPositiveImageSize));
    assert_eq!(shm_layout(&t, &shm, xrgb(), 16, 16, -4), Err(VulkanError::NonPositiveImageSize));
    let other = Format { drm: 0x1234, vk_format: 1, bpp: 2, has_alpha: false };
    assert_eq!(shm_layout(&t, &shm, other, 16, 16, 64), Err(VulkanError::FormatNotSupported));
    assert_eq!(shm_layout(&t, &shm, argb(), 16, 16, 64), Err(VulkanError::ShmNotSupported));
    assert_eq!(shm_layout(&t, &shm, xrgb(), 100_001, 16, 400_004), Err(VulkanError::ImageTooLarge));
    assert_eq!(shm_layout(&t, &shm, xrgb(), 16, 16, 63), Err(VulkanError::InvalidStride));
    assert_eq!(shm_layout(&t, &shm, xrgb(), 16, 16, 60), Err(VulkanError::InvalidStride));
    assert_eq!(shm_layout(&t, &shm, xrgb(), 65536, 65536, 262144), Err(VulkanError::ShmOverflow));
    assert_eq!(
        shm_layout(&t, &shm, xrgb(), 16, 16, 64),
        Ok(ShmLayout { width: 16, height: 16, stride: 64, size: 1024 })
    );
    assert_eq!(
        shm_layout(&t, &shm, xrgb(), 3, 2, 16),
        Ok(ShmLayout { width: 3, height: 2, stride: 16, size: 32 })
    );
}

#[test]
fn shm_images_queue_their_upload() {
    let layout = ShmLayout { width: 2, height: 2, stride: 8, size: 16 };
    let data: Vec<u8> = (0..16).collect();
    let img = VulkanImage::new_shm(1, argb(), layout, &data, false);
    assert!(img.needs_flush());
    match &img.ty {
        VulkanImageMemory::Internal(shm) => assert_eq!(shm.to_flush.as_deref(), Some(&data[..])),
        VulkanImageMemory::DmaBuf(_) => panic!("not shm"),
    }
    let fb = VulkanImage::new_shm(2, argb(), layout, &[], true);
    assert!(!fb.needs_flush());
    assert!(fb.has_render_view);
}

#[test]
fn shm_texture_reuse() {
    let layout = ShmLayout { width: 2, height: 2, stride: 8, size: 16 };
    let mut img = VulkanImage::new_shm(1, argb(), layout, &[], false);
    assert!(!img.try_reuse(&[1, 2, 3], argb(), 2, 3, 8));
    assert!(!img.needs_flush());
    assert!(!img.try_reuse(&[1, 2, 3], argb(), 2, 2, 12));
    assert!(img.try_reuse(&[1, 2, 3], argb(), 2, 2, 8));
    match &img.ty {
        VulkanImageMemory::Internal(shm) => assert_eq!(shm.to_flush, Some(vec![1, 2, 3])),
        VulkanImageMemory::DmaBuf(_) => panic!("not shm"),
    }
    let mut dma = VulkanImage::new_dmabuf(
        2,
        dmabuf(argb(), 0, 1, 2, 2, false),
        DmaBufUsage { sampled: true, render: true },
    );
    assert!(!dma.try_reuse(&[1], argb(), 2, 2, 8));
}
