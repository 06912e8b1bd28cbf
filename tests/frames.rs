use jay::command::{
    Access, BufferImageCopy, DrawCmd, GfxApiOpt, ImageLayout, Pipeline, QueueFamily, RenderPass, Stage,
    StagingBuffer,
};
use jay::error::VulkanError;
use jay::format::{Format, MaxExtents, VulkanFormat, VulkanModifier, ARGB8888_DRM, XRGB8888_DRM};
use jay::image::{DmaBuf, DmaBufPlane, DmaBufUsage, ShmLayout, VulkanImage, VulkanImageMemory};
use jay::renderer::{release_needs_block, SyncRequest, VulkanRenderer, DMA_BUF_SYNC_READ, DMA_BUF_SYNC_WRITE};

fn xrgb() -> Format {
    Format { drm: XRGB8888_DRM, vk_format: 44, bpp: 4, has_alpha: false }
}

fn argb() -> Format {
    Format { drm: ARGB8888_DRM, vk_format: 44, bpp: 4, has_alpha: true }
}

fn renderer() -> VulkanRenderer {
    let ext = Some(MaxExtents { width: 4096, height: 4096 });
    let table = vec![
        VulkanFormat {
            format: xrgb(),
            modifiers: vec![VulkanModifier {
                modifier: 0,
                planes: 1,
                texture_max_extents: ext,
                render_max_extents: ext,
                supports_disjoint: false,
            }],
        },
        VulkanFormat { format: argb(), modifiers: vec![] },
    ];
    VulkanRenderer::new(&table)
}

fn shm(id: u64, format: Format, w: u32, h: u32, data: &[u8], fb: bool) -> VulkanImage {
    let layout = ShmLayout { width: w, height: h, stride: w * 4, size: (w * h * 4) as u64 };
    VulkanImage::new_shm(id, format, layout, data, fb)
}

fn dmabuf_image(id: u64, planes: usize) -> VulkanImage {
    let buf = DmaBuf {
        width: 8,
        height: 8,
        format: xrgb(),
        modifier: 0,
        planes: (0..planes).map(|i| DmaBufPlane { fd: 20 + i as i32, offset: 0, stride: 32 }).collect(),
        is_disjoint: false,
    };
    VulkanImage::new_dmabuf(id, buf, DmaBufUsage { sampled: true, render: true })
}

/// Runs one frame through the bookkeeping, as the GPU side would drive it,
/// and returns the submission point.
fn run_frame(
    r: &mut VulkanRenderer,
    fb: &mut VulkanImage,
    textures: &mut Vec<VulkanImage>,
    ops: &[GfxApiOpt],
    new_cmd: u64,
) -> Result<u64, VulkanError> {
    let cmd = r.allocate_command_buffer().unwrap_or(new_cmd);
    r.collect_memory(ops, textures);
    let flush = r.memory.flush.clone();
    for (n, idx) in flush.into_iter().enumerate() {
        r.add_flush_staging(idx, StagingBuffer { id: 100 + n as u64, size: 64 });
    }
    let waits = r.sync_requests(fb, textures, DMA_BUF_SYNC_READ, DMA_BUF_SYNC_WRITE);
    for (n, _) in waits.iter().enumerate() {
        if r.allocate_semaphore().is_none() {
            r.add_wait_semaphore(500 + n as u64);
        }
    }
    r.set_release(900, Some(42));
    r.execute(fb, textures, Ok(cmd))
}

#[test]
fn single_clear_plan() {
    let mut r = renderer();
    let fb = shm(1, xrgb(), 16, 16, &[], true);
    let textures = vec![];
    r.collect_memory(&[], &textures);
    let plan = r.frame_plan(&fb, &textures, &[], true);
    assert_eq!(plan.pass, RenderPass { image: 1, width: 16, height: 16, clear: true });
    assert_eq!(plan.initial_images.len(), 1);
    assert_eq!(plan.initial_images[0].old_layout, ImageLayout::Undefined);
    assert_eq!(plan.initial_images[0].new_layout, ImageLayout::ColorAttachmentOptimal);
    assert_eq!(plan.initial_images[0].src_queue, QueueFamily::Foreign);
    assert_eq!(plan.initial_images[0].dst_queue, QueueFamily::Graphics);
    assert_eq!(plan.initial_images[0].dst_access, Access::ColorAttachmentWrite);
    assert_eq!(plan.initial_images[0].dst_stage, Stage::ColorAttachmentOutput);
    assert!(plan.initial_buffers.is_empty());
    assert!(plan.copies.is_empty());
    assert!(plan.secondary_images.is_empty());
    assert!(plan.draws.is_empty());
    assert_eq!(plan.final_images.len(), 1);
    assert_eq!(plan.final_images[0].old_layout, ImageLayout::ColorAttachmentOptimal);
    assert_eq!(plan.final_images[0].new_layout, ImageLayout::General);
    assert_eq!(plan.final_images[0].dst_queue, QueueFamily::Foreign);
    assert_eq!(plan.final_images[0].src_access, Access::ColorAttachmentReadWrite);
}

#[test]
fn fill_atop_clear_plan() {
    let mut r = renderer();
    let fb = shm(1, argb(), 4, 4, &[], true);
    let textures = vec![];
    let ops = [GfxApiOpt::FillRect];
    r.collect_memory(&ops, &textures);
    let plan = r.frame_plan(&fb, &textures, &ops, true);
    assert!(plan.pass.clear);
    assert_eq!(plan.draws, vec![DrawCmd::BindPipeline(Pipeline::Fill), DrawCmd::Fill { op: 0 }]);
}

#[test]
fn no_clear_loads() {
    let mut r = renderer();
    let fb = shm(1, argb(), 4, 4, &[], true);
    let textures = vec![];
    r.collect_memory(&[], &textures);
    assert!(!r.frame_plan(&fb, &textures, &[], false).pass.clear);
}

#[test]
fn pipelines_bound_only_on_change() {
    let mut r = renderer();
    let fb = shm(1, argb(), 4, 4, &[], true);
    let textures = vec![shm(2, argb(), 2, 2, &[], false)];
    let ops = [
        GfxApiOpt::FillRect,
        GfxApiOpt::FillRect,
        GfxApiOpt::Sync,
        GfxApiOpt::CopyTexture { tex: 0 },
        GfxApiOpt::Sync,
        GfxApiOpt::CopyTexture { tex: 0 },
        GfxApiOpt::FillRect,
    ];
    r.collect_memory(&ops, &textures);
    let plan = r.frame_plan(&fb, &textures, &ops, false);
    assert_eq!(
        plan.draws,
        vec![
            DrawCmd::BindPipeline(Pipeline::Fill),
            DrawCmd::Fill { op: 0 },
            DrawCmd::Fill { op: 1 },
            DrawCmd::BindPipeline(Pipeline::Tex),
            DrawCmd::Texture { op: 3, image: 2 },
            DrawCmd::Texture { op: 5, image: 2 },
            DrawCmd::BindPipeline(Pipeline::Fill),
            DrawCmd::Fill { op: 6 },
        ]
    );
}

#[test]
fn texture_copy_uploads_first() {
    let mut r = renderer();
    let mut fb = shm(1, argb(), 2, 2, &[], true);
    let pixels: Vec<u8> = vec![0, 0, 255, 255, 0, 255, 0, 255, 255, 0, 0, 255, 255, 255, 255, 255];
    let mut textures = vec![shm(2, argb(), 2, 2, &pixels, false)];
    let ops = [GfxApiOpt::CopyTexture { tex: 0 }];
    r.collect_memory(&ops, &textures);
    assert_eq!(r.memory.flush, vec![0]);
    assert_eq!(r.memory.textures, vec![0]);
    assert!(r.memory.sample.is_empty());
    r.add_flush_staging(0, StagingBuffer { id: 77, size: 16 });
    let plan = r.frame_plan(&fb, &textures, &ops, false);
    assert_eq!(plan.initial_images.len(), 2);
    assert_eq!(plan.initial_images[1].image, 2);
    assert_eq!(plan.initial_images[1].old_layout, ImageLayout::Undefined);
    assert_eq!(plan.initial_images[1].new_layout, ImageLayout::TransferDstOptimal);
    assert_eq!(plan.initial_buffers.len(), 1);
    assert_eq!(plan.initial_buffers[0].buffer, 77);
    assert_eq!(plan.initial_buffers[0].src_access, Access::HostWrite);
    assert_eq!(plan.initial_buffers[0].dst_access, Access::TransferRead);
    assert_eq!(plan.copies, vec![BufferImageCopy { buffer: 77, image: 2, row_length: 2, width: 2, height: 2 }]);
    assert_eq!(plan.secondary_images.len(), 1);
    assert_eq!(plan.secondary_images[0].old_layout, ImageLayout::TransferDstOptimal);
    assert_eq!(plan.secondary_images[0].new_layout, ImageLayout::ShaderReadOnlyOptimal);
    assert_eq!(plan.draws, vec![DrawCmd::BindPipeline(Pipeline::Tex), DrawCmd::Texture { op: 0, image: 2 }]);
    r.set_release(5, None);
    let point = r.execute(&mut fb, &mut textures, Ok(3)).unwrap();
    assert_eq!(point, 1);
    assert!(!fb.is_undefined);
    assert!(!textures[0].is_undefined);
    assert!(!textures[0].needs_flush());
    match &textures[0].ty {
        VulkanImageMemory::Internal(s) => assert_eq!(s.size, 16),
        VulkanImageMemory::DmaBuf(_) => panic!("not shm"),
    }
}

#[test]
fn two_frames_reuse_resources() {
    let mut r = renderer();
    let mut fb = shm(1, argb(), 4, 4, &[], true);
    let mut textures = vec![];
    let ops = [GfxApiOpt::FillRect];
    let p1 = run_frame(&mut r, &mut fb, &mut textures, &ops, 11).unwrap();
    assert_eq!(r.total_buffers, 1);
    let f1 = r.release_frame(p1).expect("pending");
    assert_eq!(f1.cmd, 11);
    assert_eq!(f1.release_fence, Some(900));
    assert_eq!(f1.release_syncfile, Some(42));
    assert_eq!(r.command_buffers, vec![11]);
    let p2 = run_frame(&mut r, &mut fb, &mut textures, &ops, 12).unwrap();
    assert_eq!(p2, 2);
    r.release_frame(p2).expect("pending");
    assert!(r.command_buffers.len() >= 1);
    assert_eq!(r.command_buffers, vec![11]);
    assert_eq!(r.total_buffers, 1);
}

#[test]
fn pending_frame_accounting() {
    let mut r = renderer();
    let mut fb = dmabuf_image(1, 2);
    let mut textures = vec![dmabuf_image(2, 1)];
    let ops = [GfxApiOpt::CopyTexture { tex: 0 }];
    assert_eq!(r.pending_count(), 0);
    let p = run_frame(&mut r, &mut fb, &mut textures, &ops, 3).unwrap();
    assert_eq!(p, 1);
    assert_eq!(r.last_point, 1);
    assert_eq!(r.pending_count(), 1);
    assert!(r.is_pending(1));
    assert!(r.memory.wait_semaphores.is_empty());
    let f = r.release_frame(1).unwrap();
    assert_eq!(f.point, 1);
    assert_eq!(f.textures, vec![2]);
    assert_eq!(f.wait_semaphores, vec![500, 501, 502]);
    assert!(!r.is_pending(1));
    assert_eq!(r.pending_count(), 0);
    assert_eq!(r.wait_semaphores, vec![500, 501, 502]);
    assert_eq!(r.command_buffers, vec![3]);
    assert!(r.release_frame(1).is_none());
    let p = run_frame(&mut r, &mut fb, &mut textures, &ops, 4).unwrap();
    assert_eq!(p, 2);
    assert_eq!(r.command_buffers, vec![]);
    assert_eq!(r.wait_semaphores, vec![]);
}

#[test]
fn failed_frame_leaves_nothing_behind() {
    let mut r = renderer();
    let mut fb = shm(1, argb(), 4, 4, &[], true);
    let mut textures = vec![shm(2, argb(), 2, 2, &[1, 2, 3, 4], false), dmabuf_image(3, 1)];
    let ops = [GfxApiOpt::CopyTexture { tex: 0 }, GfxApiOpt::CopyTexture { tex: 1 }];
    r.collect_memory(&ops, &textures);
    r.add_flush_staging(0, StagingBuffer { id: 9, size: 16 });
    r.add_wait_semaphore(31);
    r.set_release(4, Some(8));
    let res = r.execute(&mut fb, &mut textures, Err(VulkanError::Submit(-4)));
    assert_eq!(res, Err(VulkanError::Submit(-4)));
    assert!(r.memory.flush.is_empty());
    assert!(r.memory.textures.is_empty());
    assert!(r.memory.flush_staging.is_empty());
    assert!(r.memory.sample.is_empty());
    assert!(r.memory.wait_semaphores.is_empty());
    assert_eq!(r.memory.release_fence, None);
    assert_eq!(r.memory.release_syncfile, None);
    assert_eq!(r.pending_count(), 0);
    assert_eq!(r.last_point, 0);
    assert!(fb.is_undefined);
    assert!(textures[0].needs_flush());
}

#[test]
fn points_strictly_increase() {
    let mut r = renderer();
    let mut fb = shm(1, argb(), 4, 4, &[], true);
    let mut textures = vec![];
    let mut last = 0;
    for i in 0..5 {
        let p = run_frame(&mut r, &mut fb, &mut textures, &[], 10 + i).unwrap();
        assert!(p > last);
        last = p;
        if i % 2 == 0 {
            r.release_frame(p);
        }
    }
    assert_eq!(last, 5);
    assert_eq!(r.pending_count(), 2);
}

#[test]
fn dmabuf_sync_requests() {
    let mut r = renderer();
    let fb = dmabuf_image(1, 2);
    let textures = vec![dmabuf_image(2, 1), shm(3, argb(), 2, 2, &[], false)];
    let ops = [GfxApiOpt::CopyTexture { tex: 0 }, GfxApiOpt::CopyTexture { tex: 1 }];
    r.collect_memory(&ops, &textures);
    assert_eq!(r.memory.sample, vec![0]);
    let waits = r.sync_requests(&fb, &textures, DMA_BUF_SYNC_READ, DMA_BUF_SYNC_WRITE);
    assert_eq!(
        waits,
        vec![
            SyncRequest { fd: 20, flag: DMA_BUF_SYNC_READ },
            SyncRequest { fd: 20, flag: DMA_BUF_SYNC_WRITE },
            SyncRequest { fd: 21, flag: DMA_BUF_SYNC_WRITE },
        ]
    );
    let release = r.sync_requests(&fb, &textures, DMA_BUF_SYNC_WRITE, DMA_BUF_SYNC_READ | DMA_BUF_SYNC_WRITE);
    assert_eq!(release[2], SyncRequest { fd: 21, flag: 3 });
    let plan = r.frame_plan(&fb, &textures, &ops, true);
    assert_eq!(plan.initial_images.len(), 2);
    assert_eq!(plan.initial_images[1].old_layout, ImageLayout::General);
    assert_eq!(plan.initial_images[1].new_layout, ImageLayout::ShaderReadOnlyOptimal);
    assert_eq!(plan.initial_images[1].src_queue, QueueFamily::Foreign);
    assert_eq!(plan.final_images.len(), 2);
    assert_eq!(plan.final_images[1].old_layout, ImageLayout::ShaderReadOnlyOptimal);
    assert_eq!(plan.final_images[1].new_layout, ImageLayout::General);
    assert_eq!(plan.final_images[1].dst_queue, QueueFamily::Foreign);
}

#[test]
fn undefined_only_on_first_use() {
    let mut r = renderer();
    let mut fb = dmabuf_image(1, 1);
    let mut textures = vec![];
    assert!(fb.is_undefined);
    r.collect_memory(&[], &textures);
    assert_eq!(r.frame_plan(&fb, &textures, &[], true).initial_images[0].old_layout, ImageLayout::Undefined);
    r.execute(&mut fb, &mut textures, Ok(1)).unwrap();
    assert!(!fb.is_undefined);
    r.collect_memory(&[], &textures);
    let plan = r.frame_plan(&fb, &textures, &[], false);
    assert_eq!(plan.initial_images[0].old_layout, ImageLayout::General);
    assert_eq!(plan.initial_images[0].new_layout, ImageLayout::ColorAttachmentOptimal);
}

#[test]
fn drop_with_pending_frames() {
    let mut r = renderer();
    let mut fb = shm(1, argb(), 4, 4, &[], true);
    let mut textures = vec![];
    assert!(!r.on_drop());
    run_frame(&mut r, &mut fb, &mut textures, &[], 1).unwrap();
    run_frame(&mut r, &mut fb, &mut textures, &[], 2).unwrap();
    assert!(r.on_drop());
    assert_eq!(r.pending_count(), 0);
    assert_eq!(r.last_point, 2);
}

#[test]
fn watcher_blocks_without_release_file() {
    assert!(!release_needs_block(true, true));
    assert!(release_needs_block(true, false));
    assert!(release_needs_block(false, true));
    assert!(release_needs_block(false, false));
}

#[test]
fn semaphores_come_from_the_pool_first() {
    let mut r = renderer();
    r.finish_readback(4, vec![7, 8]);
    assert_eq!(r.command_buffers, vec![4]);
    assert_eq!(r.allocate_semaphore(), Some(8));
    assert_eq!(r.memory.wait_semaphores, vec![8]);
    assert_eq!(r.allocate_semaphore(), Some(7));
    assert_eq!(r.allocate_semaphore(), None);
    assert_eq!(r.memory.wait_semaphores, vec![8, 7]);
    assert_eq!(r.allocate_command_buffer(), Some(4));
    assert_eq!(r.total_buffers, 0);
    assert_eq!(r.allocate_command_buffer(), None);
    assert_eq!(r.total_buffers, 1);
}
