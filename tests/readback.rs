use jay::command::{Access, ImageLayout, QueueFamily, Stage, StagingBuffer};
use jay::error::VulkanError;
use jay::format::{Format, XRGB8888_DRM};
use jay::image::{DmaBuf, DmaBufPlane, DmaBufUsage, ShmLayout, VulkanImage};
use jay::readback::{check_read_all, read_pixels_path, readback_plan, ReadPath, TmpShmTexture};
use jay::renderer::{readback_sync_requests, SyncRequest, DMA_BUF_SYNC_READ};

fn xrgb() -> Format {
    Format { drm: XRGB8888_DRM, vk_format: 44, bpp: 4, has_alpha: false }
}

fn tex() -> VulkanImage {
    VulkanImage::new_shm(5, xrgb(), ShmLayout { width: 16, height: 16, stride: 64, size: 1024 }, &[], true)
}

#[test]
fn read_pixels_parameters() {
    let t = tex();
    assert_eq!(
        read_pixels_path(&t, -1, 0, 16, 16, 64, xrgb()),
        Err(VulkanError::InvalidShmParameters { x: -1, y: 0, width: 16, height: 16, stride: 64 })
    );
    assert_eq!(
        read_pixels_path(&t, 0, 0, 16, 0, 64, xrgb()),
        Err(VulkanError::InvalidShmParameters { x: 0, y: 0, width: 16, height: 0, stride: 64 })
    );
    assert_eq!(
        read_pixels_path(&t, 0, 0, 16, 16, 0, xrgb()),
        Err(VulkanError::InvalidShmParameters { x: 0, y: 0, width: 16, height: 16, stride: 0 })
    );
    assert_eq!(read_pixels_path(&t, 0, 0, 16, 16, 64, xrgb()), Ok(ReadPath::Whole));
    assert_eq!(read_pixels_path(&t, 2, 3, 4, 4, 16, xrgb()), Ok(ReadPath::Blit(TmpShmTexture(2, 3))));
    let other = Format { drm: 0x1, vk_format: 1, bpp: 4, has_alpha: true };
    assert_eq!(read_pixels_path(&t, 0, 0, 16, 16, 64, other), Ok(ReadPath::Blit(TmpShmTexture(0, 0))));
}

#[test]
fn read_all_pixels_checks() {
    let t = tex();
    assert_eq!(check_read_all(&t, 60, 960), Err(VulkanError::InvalidStride));
    assert_eq!(check_read_all(&t, 66, 1056), Err(VulkanError::InvalidStride));
    assert_eq!(check_read_all(&t, 64, 1000), Err(VulkanError::InvalidBufferSize));
    assert_eq!(check_read_all(&t, 64, 1024), Ok(1024));
    assert_eq!(check_read_all(&t, 80, 1280), Ok(1280));
}

#[test]
fn readback_commands() {
    let t = tex();
    let plan = readback_plan(&t, 80, StagingBuffer { id: 9, size: 1280 });
    assert_eq!(plan.copy.row_length, 20);
    assert_eq!((plan.copy.width, plan.copy.height, plan.copy.buffer, plan.copy.image), (16, 16, 9, 5));
    assert_eq!(plan.initial_image.old_layout, ImageLayout::General);
    assert_eq!(plan.initial_image.new_layout, ImageLayout::TransferSrcOptimal);
    assert_eq!(plan.initial_image.src_queue, QueueFamily::Foreign);
    assert_eq!(plan.final_image.new_layout, ImageLayout::General);
    assert_eq!(plan.final_image.dst_queue, QueueFamily::Foreign);
    assert_eq!(plan.final_buffer.dst_access, Access::HostRead);
    assert_eq!(plan.final_buffer.dst_stage, Stage::Host);
    assert_eq!(plan.initial_buffer.size, 1280);
}

#[test]
fn readback_waits_on_dmabuf_planes() {
    assert!(readback_sync_requests(&tex()).is_empty());
    let buf = DmaBuf {
        width: 4,
        height: 4,
        format: xrgb(),
        modifier: 0,
        planes: vec![DmaBufPlane { fd: 3, offset: 0, stride: 16 }, DmaBufPlane { fd: 4, offset: 64, stride: 16 }],
        is_disjoint: false,
    };
    let img = VulkanImage::new_dmabuf(1, buf, DmaBufUsage { sampled: true, render: false });
    assert_eq!(
        readback_sync_requests(&img),
        vec![SyncRequest { fd: 3, flag: DMA_BUF_SYNC_READ }, SyncRequest { fd: 4, flag: DMA_BUF_SYNC_READ }]
    );
}
