use vstd::prelude::*;

use crate::image::{VulkanImage, VulkanImageMemory};

verus! {

/// The image layouts that the renderer moves images between.
#[derive(Debug, Clone, Copy, PartialEq, Eq)]
pub enum ImageLayout {
    Undefined,
    General,
    ColorAttachmentOptimal,
    ShaderReadOnlyOptimal,
    TransferSrcOptimal,
    TransferDstOptimal,
}

/// The queue family on one side of a barrier. `Foreign` is the external
/// owner of a shared buffer (KMS, another process); `Ignored` means that the
/// barrier transfers no ownership.
#[derive(Debug, Clone, Copy, PartialEq, Eq)]
pub enum QueueFamily {
    Foreign,
    Graphics,
    Ignored,
}

/// The memory accesses that a barrier orders.
#[derive(Debug, Clone, Copy, PartialEq, Eq)]
pub enum Access {
    Empty,
    ColorAttachmentWrite,
    ColorAttachmentReadWrite,
    ShaderSampledRead,
    TransferRead,
    TransferWrite,
    HostWrite,
    HostRead,
}

/// The pipeline stages that a barrier orders.
#[derive(Debug, Clone, Copy, PartialEq, Eq)]
pub enum Stage {
    Empty,
    ColorAttachmentOutput,
    FragmentShader,
    Transfer,
    Host,
}

/// A barrier on the colour aspect of one image.
#[derive(Debug, Clone, Copy, PartialEq, Eq)]
pub struct ImageBarrier {
    pub image: u64,
    pub src_queue: QueueFamily,
    pub dst_queue: QueueFamily,
    pub old_layout: ImageLayout,
    pub new_layout: ImageLayout,
    pub src_access: Access,
    pub src_stage: Stage,
    pub dst_access: Access,
    pub dst_stage: Stage,
}

/// A barrier on the whole of one buffer.
#[derive(Debug, Clone, Copy, PartialEq, Eq)]
pub struct BufferBarrier {
    pub buffer: u64,
    pub size: u64,
    pub src_access: Access,
    pub src_stage: Stage,
    pub dst_access: Access,
    pub dst_stage: Stage,
}

/// A host-visible buffer used to move pixels between host and image.
#[derive(Debug, Clone, Copy, PartialEq, Eq)]
pub struct StagingBuffer {
    pub id: u64,
    pub size: u64,
}

/// A copy between a buffer and the whole of an image: rows of
/// `row_length` pixels, `width` x `height` pixels in all.
#[derive(Debug, Clone, Copy, PartialEq, Eq)]
pub struct BufferImageCopy {
    pub buffer: u64,
    pub image: u64,
    pub row_length: u32,
    pub width: u32,
    pub height: u32,
}

/// The two fixed pipelines.
#[derive(Debug, Clone, Copy, PartialEq, Eq)]
pub enum Pipeline {
    Fill,
    Tex,
}

/// One operation of a frame. The geometry and colour of an operation stay
/// with the caller; a texture copy names its source by index into the
/// frame's texture list.
#[derive(Debug, Clone, Copy, PartialEq, Eq)]
pub enum GfxApiOpt {
    Sync,
    FillRect,
    CopyTexture { tex: usize },
}

/// One recorded draw command. `op` is the index of the operation that it
/// draws.
#[derive(Debug, Clone, Copy, PartialEq, Eq)]
pub enum DrawCmd {
    BindPipeline(Pipeline),
    Fill { op: usize },
    Texture { op: usize, image: u64 },
}

/// The dynamic-rendering pass over the framebuffer: its full extent, and
/// whether it starts by clearing.
#[derive(Debug, Clone, Copy, PartialEq, Eq)]
pub struct RenderPass {
    pub image: u64,
    pub width: u32,
    pub height: u32,
    pub clear: bool,
}

/// Everything a frame's single command buffer records, in recording order:
/// the initial barriers, the uploads, the barriers after them (recorded only
/// when there are uploads), the rendering pass with its viewport and draws,
/// and the final barriers.
#[derive(Debug, Clone)]
pub struct FramePlan {
    pub initial_images: Vec<ImageBarrier>,
    pub initial_buffers: Vec<BufferBarrier>,
    pub copies: Vec<BufferImageCopy>,
    pub secondary_images: Vec<ImageBarrier>,
    pub pass: RenderPass,
    pub draws: Vec<DrawCmd>,
    pub final_images: Vec<ImageBarrier>,
}

/// The framebuffer moves from its foreign owner to the graphics queue and
/// into the attachment layout.
pub open spec fn fb_initial_barrier(fb: VulkanImage) -> ImageBarrier {
    ImageBarrier {
        image: fb.id,
        src_queue: QueueFamily::Foreign,
        dst_queue: QueueFamily::Graphics,
        old_layout: if fb.is_undefined { ImageLayout::Undefined } else { ImageLayout::General },
        new_layout: ImageLayout::ColorAttachmentOptimal,
        src_access: Access::Empty,
        src_stage: Stage::Empty,
        dst_access: Access::ColorAttachmentWrite,
        dst_stage: Stage::ColorAttachmentOutput,
    }
}

/// A sampled dma-buf moves from its foreign owner to the graphics queue and
/// becomes readable by the fragment shader.
pub open spec fn sample_initial_barrier(img: VulkanImage) -> ImageBarrier {
    ImageBarrier {
        image: img.id,
        src_queue: QueueFamily::Foreign,
        dst_queue: QueueFamily::Graphics,
        old_layout: ImageLayout::General,
        new_layout: ImageLayout::ShaderReadOnlyOptimal,
        src_access: Access::Empty,
        src_stage: Stage::Empty,
        dst_access: Access::ShaderSampledRead,
        dst_stage: Stage::FragmentShader,
    }
}

/// A shared-memory image about to receive an upload.
pub open spec fn flush_initial_barrier(img: VulkanImage) -> ImageBarrier {
    ImageBarrier {
        image: img.id,
        src_queue: QueueFamily::Ignored,
        dst_queue: QueueFamily::Ignored,
        old_layout: if img.is_undefined { ImageLayout::Undefined } else { ImageLayout::ShaderReadOnlyOptimal },
        new_layout: ImageLayout::TransferDstOptimal,
        src_access: Access::Empty,
        src_stage: Stage::Empty,
        dst_access: Access::TransferWrite,
        dst_stage: Stage::Transfer,
    }
}

/// The host writes to a staging buffer become visible to the transfer.
pub open spec fn staging_upload_barrier(s: StagingBuffer) -> BufferBarrier {
    BufferBarrier {
        buffer: s.id,
        size: s.size,
        src_access: Access::HostWrite,
        src_stage: Stage::Host,
        dst_access: Access::TransferRead,
        dst_stage: Stage::Transfer,
    }
}

/// The upload into an image becomes visible to the fragment shader.
pub open spec fn flush_secondary_barrier(img: VulkanImage) -> ImageBarrier {
    ImageBarrier {
        image: img.id,
        src_queue: QueueFamily::Ignored,
        dst_queue: QueueFamily::Ignored,
        old_layout: ImageLayout::TransferDstOptimal,
        new_layout: ImageLayout::ShaderReadOnlyOptimal,
        src_access: Access::TransferWrite,
        src_stage: Stage::Transfer,
        dst_access: Access::ShaderSampledRead,
        dst_stage: Stage::FragmentShader,
    }
}

/// The framebuffer goes back to its foreign owner in the general layout.
pub open spec fn fb_final_barrier(fb: VulkanImage) -> ImageBarrier {
    ImageBarrier {
        image: fb.id,
        src_queue: QueueFamily::Graphics,
        dst_queue: QueueFamily::Foreign,
        old_layout: ImageLayout::ColorAttachmentOptimal,
        new_layout: ImageLayout::General,
        src_access: Access::ColorAttachmentReadWrite,
        src_stage: Stage::ColorAttachmentOutput,
        dst_access: Access::Empty,
        dst_stage: Stage::Empty,
    }
}

/// A sampled dma-buf goes back to its foreign owner in the general layout.
pub open spec fn sample_final_barrier(img: VulkanImage) -> ImageBarrier {
    ImageBarrier {
        image: img.id,
        src_queue: QueueFamily::Graphics,
        dst_queue: QueueFamily::Foreign,
        old_layout: ImageLayout::ShaderReadOnlyOptimal,
        new_layout: ImageLayout::General,
        src_access: Access::ShaderSampledRead,
        src_stage: Stage::FragmentShader,
        dst_access: Access::Empty,
        dst_stage: Stage::Empty,
    }
}

/// The bytes per row of a shared-memory image, counted in pixels.
pub open spec fn row_length(img: VulkanImage) -> u32
    recommends img.ty is Internal, img.format.bpp > 0,
{
    (img.ty->Internal_0.stride / img.format.bpp) as u32
}

/// The upload of a staging buffer into a shared-memory image.
pub open spec fn upload_copy(img: VulkanImage, s: StagingBuffer) -> BufferImageCopy {
    BufferImageCopy {
        buffer: s.id,
        image: img.id,
        row_length: row_length(img),
        width: img.width,
        height: img.height,
    }
}

/// Some entry of `idx` is `j`.
pub open spec fn names(idx: Seq<usize>, j: int) -> bool {
    exists|m: int| 0 <= m < idx.len() && idx[m] as int == j
}

/// Every index of `idx` names a texture.
pub open spec fn indices_in(idx: Seq<usize>, n: int) -> bool {
    forall|k: int| 0 <= k < idx.len() ==> (#[trigger] idx[k] as int) < n
}

/// Every upload pairs a shared-memory texture with its staging buffer.
pub open spec fn staging_in(pairs: Seq<(usize, StagingBuffer)>, textures: Seq<VulkanImage>) -> bool {
    forall|k: int| 0 <= k < pairs.len() ==> (#[trigger] pairs[k]).0 < textures.len()
        && textures[pairs[k].0 as int].ty is Internal && textures[pairs[k].0 as int].format.bpp > 0
}

/// Every texture copy of `ops` names a texture.
pub open spec fn ops_in(ops: Seq<GfxApiOpt>, n: int) -> bool {
    forall|k: int| 0 <= k < ops.len() ==> (#[trigger] ops[k] matches GfxApiOpt::CopyTexture { tex } ==> (tex as int) < n)
}

pub open spec fn initial_image_barriers(fb: VulkanImage, textures: Seq<VulkanImage>, sample: Seq<usize>, staging: Seq<(usize, StagingBuffer)>) -> Seq<ImageBarrier> {
    seq![fb_initial_barrier(fb)]
        + sample.map_values(|i: usize| sample_initial_barrier(textures[i as int]))
        + staging.map_values(|p: (usize, StagingBuffer)| flush_initial_barrier(textures[p.0 as int]))
}

pub open spec fn final_image_barriers(fb: VulkanImage, textures: Seq<VulkanImage>, sample: Seq<usize>) -> Seq<ImageBarrier> {
    seq![fb_final_barrier(fb)] + sample.map_values(|i: usize| sample_final_barrier(textures[i as int]))
}

/// The pipeline that an operation draws with, if it draws.
pub open spec fn op_pipeline(op: GfxApiOpt) -> Option<Pipeline> {
    match op {
        GfxApiOpt::Sync => None,
        GfxApiOpt::FillRect => Some(Pipeline::Fill),
        GfxApiOpt::CopyTexture { .. } => Some(Pipeline::Tex),
    }
}

/// The pipeline bound after recording the first `n` operations.
pub open spec fn bound_after(ops: Seq<GfxApiOpt>, n: int) -> Option<Pipeline>
    decreases n,
{
    if n <= 0 {
        None
    } else {
        match op_pipeline(ops[n - 1]) {
            Some(p) => Some(p),
            None => bound_after(ops, n - 1),
        }
    }
}

/// The commands for operation `i`, given the pipeline bound before it: a
/// bind only when the pipeline changes, then the draw.
pub open spec fn op_cmds(op: GfxApiOpt, i: int, textures: Seq<VulkanImage>, bound: Option<Pipeline>) -> Seq<DrawCmd> {
    match op {
        GfxApiOpt::Sync => Seq::empty(),
        GfxApiOpt::FillRect => {
            (if bound == Some(Pipeline::Fill) { Seq::empty() } else { seq![DrawCmd::BindPipeline(Pipeline::Fill)] })
                + seq![DrawCmd::Fill { op: i as usize }]
        },
        GfxApiOpt::CopyTexture { tex } => {
            (if bound == Some(Pipeline::Tex) { Seq::empty() } else { seq![DrawCmd::BindPipeline(Pipeline::Tex)] })
                + seq![DrawCmd::Texture { op: i as usize, image: textures[tex as int].id }]
        },
    }
}

/// The draw commands for the first `n` operations.
pub open spec fn draw_cmds(ops: Seq<GfxApiOpt>, textures: Seq<VulkanImage>, n: int) -> Seq<DrawCmd>
    decreases n,
{
    if n <= 0 {
        Seq::empty()
    } else {
        draw_cmds(ops, textures, n - 1) + op_cmds(ops[n - 1], n - 1, textures, bound_after(ops, n - 1))
    }
}

/// The barriers recorded before the uploads: the framebuffer, then each
/// sampled dma-buf, then each image that receives an upload; and one buffer
/// barrier per staging buffer.
pub fn initial_barriers(fb: &VulkanImage, textures: &Vec<VulkanImage>, sample: &Vec<usize>, staging: &Vec<(usize, StagingBuffer)>) -> (r: (Vec<ImageBarrier>, Vec<BufferBarrier>))
    requires
        indices_in(sample@, textures@.len() as int),
        staging_in(staging@, textures@),
    ensures
        r.0@ == initial_image_barriers(*fb, textures@, sample@, staging@),
        r.1@ == staging@.map_values(|p: (usize, StagingBuffer)| staging_upload_barrier(p.1)),
{
    let mut images: Vec<ImageBarrier> = Vec::new();
    let mut buffers: Vec<BufferBarrier> = Vec::new();
    images.push(ImageBarrier {
        image: fb.id,
        src_queue: QueueFamily::Foreign,
        dst_queue: QueueFamily::Graphics,
        old_layout: if fb.is_undefined { ImageLayout::Undefined } else { ImageLayout::General },
        new_layout: ImageLayout::ColorAttachmentOptimal,
        src_access: Access::Empty,
        src_stage: Stage::Empty,
        dst_access: Access::ColorAttachmentWrite,
        dst_stage: Stage::ColorAttachmentOutput,
    });
    let ghost head = images@;
    let mut k: usize = 0;
    while k < sample.len()
        invariant
            k <= sample.len(),
            indices_in(sample@, textures@.len() as int),
            images@ == head + sample@.subrange(0, k as int).map_values(|i: usize| sample_initial_barrier(textures@[i as int])),
        decreases sample.len() - k,
    {
        let img = &textures[sample[k]];
        images.push(ImageBarrier {
            image: img.id,
            src_queue: QueueFamily::Foreign,
            dst_queue: QueueFamily::Graphics,
            old_layout: ImageLayout::General,
            new_layout: ImageLayout::ShaderReadOnlyOptimal,
            src_access: Access::Empty,
            src_stage: Stage::Empty,
            dst_access: Access::ShaderSampledRead,
            dst_stage: Stage::FragmentShader,
        });
        assert(sample@.subrange(0, k + 1).map_values(|i: usize| sample_initial_barrier(textures@[i as int]))
            =~= sample@.subrange(0, k as int).map_values(|i: usize| sample_initial_barrier(textures@[i as int]))
                .push(sample_initial_barrier(textures@[sample@[k as int] as int])));
        k += 1;
    }
    assert(sample@.subrange(0, sample.len() as int) =~= sample@);
    let ghost mid = images@;
    let mut k: usize = 0;
    while k < staging.len()
        invariant
            k <= staging.len(),
            staging_in(staging@, textures@),
            images@ == mid + staging@.subrange(0, k as int).map_values(|p: (usize, StagingBuffer)| flush_initial_barrier(textures@[p.0 as int])),
            buffers@ == staging@.subrange(0, k as int).map_values(|p: (usize, StagingBuffer)| staging_upload_barrier(p.1)),
        decreases staging.len() - k,
    {
        let (ti, st) = staging[k];
        let img = &textures[ti];
        images.push(ImageBarrier {
            image: img.id,
            src_queue: QueueFamily::Ignored,
            dst_queue: QueueFamily::Ignored,
            old_layout: if img.is_undefined { ImageLayout::Undefined } else { ImageLayout::ShaderReadOnlyOptimal },
            new_layout: ImageLayout::TransferDstOptimal,
            src_access: Access::Empty,
            src_stage: Stage::Empty,
            dst_access: Access::TransferWrite,
            dst_stage: Stage::Transfer,
        });
        buffers.push(BufferBarrier {
            buffer: st.id,
            size: st.size,
            src_access: Access::HostWrite,
            src_stage: Stage::Host,
            dst_access: Access::TransferRead,
            dst_stage: Stage::Transfer,
        });
        assert(staging@.subrange(0, k + 1).map_values(|p: (usize, StagingBuffer)| flush_initial_barrier(textures@[p.0 as int]))
            =~= staging@.subrange(0, k as int).map_values(|p: (usize, StagingBuffer)| flush_initial_barrier(textures@[p.0 as int]))
                .push(flush_initial_barrier(textures@[staging@[k as int].0 as int])));
        assert(staging@.subrange(0, k + 1).map_values(|p: (usize, StagingBuffer)| staging_upload_barrier(p.1))
            =~= staging@.subrange(0, k as int).map_values(|p: (usize, StagingBuffer)| staging_upload_barrier(p.1))
                .push(staging_upload_barrier(staging@[k as int].1)));
        k += 1;
    }
    assert(staging@.subrange(0, staging.len() as int) =~= staging@);
    (images, buffers)
}

/// One copy per upload, from the staging buffer into the whole image.
pub fn copy_shm_to_image(textures: &Vec<VulkanImage>, staging: &Vec<(usize, StagingBuffer)>) -> (r: Vec<BufferImageCopy>)
    requires
        staging_in(staging@, textures@),
    ensures
        r@ == staging@.map_values(|p: (usize, StagingBuffer)| upload_copy(textures@[p.0 as int], p.1)),
{
    let mut r: Vec<BufferImageCopy> = Vec::new();
    let mut k: usize = 0;
    while k < staging.len()
        invariant
            k <= staging.len(),
            staging_in(staging@, textures@),
            r@ == staging@.subrange(0, k as int).map_values(|p: (usize, StagingBuffer)| upload_copy(textures@[p.0 as int], p.1)),
        decreases staging.len() - k,
    {
        let (ti, st) = staging[k];
        let img = &textures[ti];
        let stride = match &img.ty {
            VulkanImageMemory::Internal(shm) => shm.stride,
            VulkanImageMemory::DmaBuf(_) => 0,
        };
        r.push(BufferImageCopy {
            buffer: st.id,
            image: img.id,
            row_length: stride / img.format.bpp,
            width: img.width,
            height: img.height,
        });
        assert(staging@.subrange(0, k + 1).map_values(|p: (usize, StagingBuffer)| upload_copy(textures@[p.0 as int], p.1))
            =~= staging@.subrange(0, k as int).map_values(|p: (usize, StagingBuffer)| upload_copy(textures@[p.0 as int], p.1))
                .push(upload_copy(textures@[staging@[k as int].0 as int], staging@[k as int].1)));
        k += 1;
    }
    assert(staging@.subrange(0, staging.len() as int) =~= staging@);
    r
}

/// The barriers after the uploads, one per uploaded image.
pub fn secondary_barriers(textures: &Vec<VulkanImage>, flush: &Vec<usize>) -> (r: Vec<ImageBarrier>)
    requires
        indices_in(flush@, textures@.len() as int),
    ensures
        r@ == flush@.map_values(|i: usize| flush_secondary_barrier(textures@[i as int])),
{
    let mut r: Vec<ImageBarrier> = Vec::new();
    let mut k: usize = 0;
    while k < flush.len()
        invariant
            k <= flush.len(),
            indices_in(flush@, textures@.len() as int),
            r@ == flush@.subrange(0, k as int).map_values(|i: usize| flush_secondary_barrier(textures@[i as int])),
        decreases flush.len() - k,
    {
        let img = &textures[flush[k]];
        r.push(ImageBarrier {
            image: img.id,
            src_queue: QueueFamily::Ignored,
            dst_queue: QueueFamily::Ignored,
            old_layout: ImageLayout::TransferDstOptimal,
            new_layout: ImageLayout::ShaderReadOnlyOptimal,
            src_access: Access::TransferWrite,
            src_stage: Stage::Transfer,
            dst_access: Access::ShaderSampledRead,
            dst_stage: Stage::FragmentShader,
        });
        assert(flush@.subrange(0, k + 1).map_values(|i: usize| flush_secondary_barrier(textures@[i as int]))
            =~= flush@.subrange(0, k as int).map_values(|i: usize| flush_secondary_barrier(textures@[i as int]))
                .push(flush_secondary_barrier(textures@[flush@[k as int] as int])));
        k += 1;
    }
    assert(flush@.subrange(0, flush.len() as int) =~= flush@);
    r
}

/// The rendering pass over the whole framebuffer; it clears first when a
/// clear colour is given and otherwise keeps the framebuffer's contents.
pub fn begin_rendering(fb: &VulkanImage, clear: bool) -> (r: RenderPass)
    ensures
        r == (RenderPass { image: fb.id, width: fb.width, height: fb.height, clear }),
{
    RenderPass { image: fb.id, width: fb.width, height: fb.height, clear }
}

/// The draw commands for `ops`, in order, binding a pipeline only when it
/// differs from the one bound last.
pub fn record_draws(ops: &[GfxApiOpt], textures: &Vec<VulkanImage>) -> (r: Vec<DrawCmd>)
    requires
        ops_in(ops@, textures@.len() as int),
    ensures
        r@ == draw_cmds(ops@, textures@, ops@.len() as int),
{
    let mut r: Vec<DrawCmd> = Vec::new();
    let mut current: Option<Pipeline> = None;
    let mut i: usize = 0;
    while i < ops.len()
        invariant
            i <= ops@.len(),
            ops_in(ops@, textures@.len() as int),
            current == bound_after(ops@, i as int),
            r@ == draw_cmds(ops@, textures@, i as int),
        decreases ops@.len() - i,
    {
        let ghost before = r@;
        match ops[i] {
            GfxApiOpt::Sync => {},
            GfxApiOpt::FillRect => {
                if !(current matches Some(Pipeline::Fill)) {
                    r.push(DrawCmd::BindPipeline(Pipeline::Fill));
                }
                r.push(DrawCmd::Fill { op: i });
                current = Some(Pipeline::Fill);
            },
            GfxApiOpt::CopyTexture { tex } => {
                if !(current matches Some(Pipeline::Tex)) {
                    r.push(DrawCmd::BindPipeline(Pipeline::Tex));
                }
                r.push(DrawCmd::Texture { op: i, image: textures[tex].id });
                current = Some(Pipeline::Tex);
            },
        }
        assert(r@ =~= before + op_cmds(ops@[i as int], i as int, textures@, bound_after(ops@, i as int)));
        i += 1;
    }
    r
}

/// The barriers recorded after rendering: the framebuffer, then each sampled
/// dma-buf, all handed back to their foreign owner.
pub fn final_barriers(fb: &VulkanImage, textures: &Vec<VulkanImage>, sample: &Vec<usize>) -> (r: Vec<ImageBarrier>)
    requires
        indices_in(sample@, textures@.len() as int),
    ensures
        r@ == final_image_barriers(*fb, textures@, sample@),
{
    let mut r: Vec<ImageBarrier> = Vec::new();
    r.push(ImageBarrier {
        image: fb.id,
        src_queue: QueueFamily::Graphics,
        dst_queue: QueueFamily::Foreign,
        old_layout: ImageLayout::ColorAttachmentOptimal,
        new_layout: ImageLayout::General,
        src_access: Access::ColorAttachmentReadWrite,
        src_stage: Stage::ColorAttachmentOutput,
        dst_access: Access::Empty,
        dst_stage: Stage::Empty,
    });
    let ghost head = r@;
    let mut k: usize = 0;
    while k < sample.len()
        invariant
            k <= sample.len(),
            indices_in(sample@, textures@.len() as int),
            r@ == head + sample@.subrange(0, k as int).map_values(|i: usize| sample_final_barrier(textures@[i as int])),
        decreases sample.len() - k,
    {
        let img = &textures[sample[k]];
        r.push(ImageBarrier {
            image: img.id,
            src_queue: QueueFamily::Graphics,
            dst_queue: QueueFamily::Foreign,
            old_layout: ImageLayout::ShaderReadOnlyOptimal,
            new_layout: ImageLayout::General,
            src_access: Access::ShaderSampledRead,
            src_stage: Stage::FragmentShader,
            dst_access: Access::Empty,
            dst_stage: Stage::Empty,
        });
        assert(sample@.subrange(0, k + 1).map_values(|i: usize| sample_final_barrier(textures@[i as int]))
            =~= sample@.subrange(0, k as int).map_values(|i: usize| sample_final_barrier(textures@[i as int]))
                .push(sample_final_barrier(textures@[sample@[k as int] as int])));
        k += 1;
    }
    assert(sample@.subrange(0, sample.len() as int) =~= sample@);
    r
}

} // verus!
