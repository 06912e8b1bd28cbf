use vstd::prelude::*;

use crate::command::{
    begin_rendering, copy_shm_to_image, draw_cmds, final_barriers, final_image_barriers,
    flush_secondary_barrier, indices_in, names, initial_barriers, initial_image_barriers, ops_in,
    record_draws, secondary_barriers, staging_in, staging_upload_barrier, upload_copy,
    FramePlan, GfxApiOpt, RenderPass, StagingBuffer,
};
use crate::error::VulkanError;
use crate::format::{advertise_formats, advertises, format_table_wf, VulkanFormat};
use crate::image::{DmaBufPlane, VulkanImage, VulkanImageMemory};
use crate::maps::{
    format_table, frame_count, frame_table, has_frame, insert_frame, new_frame_map, remove_frame,
    FormatMap, FrameMap,
};

verus! {

/// The `DMA_BUF_SYNC_READ` flag of the dma-buf sync-file ioctls.
pub const DMA_BUF_SYNC_READ: u32 = 1;

/// The `DMA_BUF_SYNC_WRITE` flag of the dma-buf sync-file ioctls.
pub const DMA_BUF_SYNC_WRITE: u32 = 2;

/// The working set of the frame being built. Textures are named by their
/// index in the frame's texture list; semaphores, fences and staging buffers
/// by the ids of the objects that the caller created.
#[derive(Debug)]
pub struct Memory {
    pub sample: Vec<usize>,
    pub flush: Vec<usize>,
    pub flush_staging: Vec<(usize, StagingBuffer)>,
    pub textures: Vec<usize>,
    pub wait_semaphores: Vec<u64>,
    pub release_fence: Option<u64>,
    pub release_syncfile: Option<i32>,
}

/// A submitted frame and what it holds until the GPU is done with it.
#[derive(Debug)]
pub struct PendingFrame {
    pub point: u64,
    pub cmd: u64,
    pub textures: Vec<u64>,
    pub staging: Vec<StagingBuffer>,
    pub wait_semaphores: Vec<u64>,
    pub release_fence: Option<u64>,
    pub release_syncfile: Option<i32>,
}

/// The renderer's bookkeeping: the advertised formats, the free command
/// buffers and semaphores (used last-in first-out), the frames in flight, and
/// the last submission point handed out.
#[derive(Debug)]
pub struct VulkanRenderer {
    pub formats: FormatMap,
    pub command_buffers: Vec<u64>,
    pub wait_semaphores: Vec<u64>,
    pub total_buffers: usize,
    pub memory: Memory,
    pub pending_frames: FrameMap,
    pub last_point: u64,
}

/// A request to move a sync file between a dma-buf plane and the renderer,
/// with the ioctl flags to use.
#[derive(Debug, Clone, Copy, PartialEq, Eq)]
pub struct SyncRequest {
    pub fd: i32,
    pub flag: u32,
}

impl Memory {
    /// Nothing of a frame is left in the working set.
    pub open spec fn is_clear(&self) -> bool {
        &&& self.sample@.len() == 0
        &&& self.flush@.len() == 0
        &&& self.flush_staging@.len() == 0
        &&& self.textures@.len() == 0
        &&& self.wait_semaphores@.len() == 0
        &&& self.release_fence is None
        &&& self.release_syncfile is None
    }

    /// The working set names only textures of the frame's list, and every
    /// upload goes to a shared-memory texture.
    pub open spec fn fits(&self, textures: Seq<VulkanImage>) -> bool {
        &&& indices_in(self.sample@, textures.len() as int)
        &&& indices_in(self.flush@, textures.len() as int)
        &&& indices_in(self.textures@, textures.len() as int)
        &&& staging_in(self.flush_staging@, textures)
    }

    /// An empty working set.
    pub fn new() -> (r: Memory)
        ensures
            r.is_clear(),
    {
        Memory {
            sample: Vec::new(),
            flush: Vec::new(),
            flush_staging: Vec::new(),
            textures: Vec::new(),
            wait_semaphores: Vec::new(),
            release_fence: None,
            release_syncfile: None,
        }
    }
}

/// The textures that the operations copy from, in order.
pub open spec fn texture_indices(ops: Seq<GfxApiOpt>) -> Seq<usize>
    decreases ops.len(),
{
    if ops.len() == 0 {
        Seq::empty()
    } else {
        let rest = texture_indices(ops.drop_last());
        match ops.last() {
            GfxApiOpt::CopyTexture { tex } => rest.push(tex),
            _ => rest,
        }
    }
}

/// The copied textures that are dma-bufs, in order.
pub open spec fn sample_indices(ops: Seq<GfxApiOpt>, textures: Seq<VulkanImage>) -> Seq<usize>
    decreases ops.len(),
{
    if ops.len() == 0 {
        Seq::empty()
    } else {
        let rest = sample_indices(ops.drop_last(), textures);
        match ops.last() {
            GfxApiOpt::CopyTexture { tex } => if textures[tex as int].ty is DmaBuf { rest.push(tex) } else { rest },
            _ => rest,
        }
    }
}

/// The copied textures that are shared-memory images with an upload
/// pending, in order.
pub open spec fn flush_indices(ops: Seq<GfxApiOpt>, textures: Seq<VulkanImage>) -> Seq<usize>
    decreases ops.len(),
{
    if ops.len() == 0 {
        Seq::empty()
    } else {
        let rest = flush_indices(ops.drop_last(), textures);
        match ops.last() {
            GfxApiOpt::CopyTexture { tex } => if textures[tex as int].ty matches VulkanImageMemory::Internal(shm) && shm.to_flush is Some {
                rest.push(tex)
            } else {
                rest
            },
            _ => rest,
        }
    }
}

/// The sync requests for the planes of one image: none for a shared-memory
/// image, one per plane for a dma-buf.
pub open spec fn plane_requests(img: VulkanImage, flag: u32) -> Seq<SyncRequest> {
    match img.ty {
        VulkanImageMemory::DmaBuf(buf) => buf.planes@.map_values(|p: DmaBufPlane| SyncRequest { fd: p.fd, flag }),
        VulkanImageMemory::Internal(_) => Seq::empty(),
    }
}

/// The sync requests for the textures named by `idx`, in order.
pub open spec fn texture_requests(idx: Seq<usize>, textures: Seq<VulkanImage>, flag: u32) -> Seq<SyncRequest>
    decreases idx.len(),
{
    if idx.len() == 0 {
        Seq::empty()
    } else {
        texture_requests(idx.drop_last(), textures, flag) + plane_requests(textures[idx.last() as int], flag)
    }
}

/// What a successful frame leaves behind: the frame is registered under the
/// next point, holding the command buffer and everything that the working set
/// held; the working set is empty again; the pools are untouched.
pub open spec fn frame_registered(pre: VulkanRenderer, post: VulkanRenderer, cmd: u64, textures: Seq<VulkanImage>, point: u64) -> bool {
    &&& point == pre.last_point + 1
    &&& post.last_point == point
    &&& !frame_table(pre.pending_frames).contains_key(point)
    &&& frame_table(post.pending_frames).dom() == frame_table(pre.pending_frames).dom().insert(point)
    &&& frame_table(post.pending_frames).remove(point) == frame_table(pre.pending_frames)
    &&& frame_table(post.pending_frames)[point].point == point
    &&& frame_table(post.pending_frames)[point].cmd == cmd
    &&& frame_table(post.pending_frames)[point].wait_semaphores@ == pre.memory.wait_semaphores@
    &&& frame_table(post.pending_frames)[point].staging@ == pre.memory.flush_staging@.map_values(|p: (usize, StagingBuffer)| p.1)
    &&& frame_table(post.pending_frames)[point].textures@ == pre.memory.textures@.map_values(|i: usize| textures[i as int].id)
    &&& frame_table(post.pending_frames)[point].release_fence == pre.memory.release_fence
    &&& frame_table(post.pending_frames)[point].release_syncfile == pre.memory.release_syncfile
    &&& post.command_buffers == pre.command_buffers
    &&& post.wait_semaphores == pre.wait_semaphores
    &&& post.total_buffers == pre.total_buffers
    &&& post.formats == pre.formats
    &&& post.memory.is_clear()
}

/// What the release of frame `point` does: the frame leaves the table and its
/// command buffer and semaphores go back to the pools.
pub open spec fn frame_released(pre: VulkanRenderer, post: VulkanRenderer, point: u64, frame: PendingFrame) -> bool {
    &&& frame_table(pre.pending_frames).contains_key(point)
    &&& frame == frame_table(pre.pending_frames)[point]
    &&& frame_table(post.pending_frames) == frame_table(pre.pending_frames).remove(point)
    &&& post.command_buffers@ == pre.command_buffers@.push(frame.cmd)
    &&& post.wait_semaphores@ == pre.wait_semaphores@ + frame.wait_semaphores@
    &&& post.last_point == pre.last_point
    &&& post.total_buffers == pre.total_buffers
}

/// What taking a command buffer does: the most recently freed one leaves
/// the pool, or, with the pool empty, a new one is counted.
pub open spec fn command_buffer_taken(pre: VulkanRenderer, post: VulkanRenderer, r: Option<u64>) -> bool {
    &&& pre.command_buffers@.len() > 0 ==> r == Some(pre.command_buffers@.last())
        && post.command_buffers@ == pre.command_buffers@.drop_last()
        && post.total_buffers == pre.total_buffers
    &&& pre.command_buffers@.len() == 0 ==> r is None
        && post.command_buffers@.len() == 0
        && post.total_buffers == pre.total_buffers + 1
    &&& post.wait_semaphores == pre.wait_semaphores
    &&& post.memory == pre.memory
    &&& post.pending_frames == pre.pending_frames
    &&& post.last_point == pre.last_point
    &&& post.formats == pre.formats
}

/// Building a frame moves resources out of the pools only into the working
/// set, and touches nothing else of the renderer.
pub open spec fn keeps_resources(pre: VulkanRenderer, post: VulkanRenderer) -> bool {
    &&& post.command_buffers == pre.command_buffers
    &&& post.wait_semaphores@.len() + post.memory.wait_semaphores@.len() >= pre.wait_semaphores@.len() + pre.memory.wait_semaphores@.len()
    &&& post.total_buffers == pre.total_buffers
    &&& post.pending_frames == pre.pending_frames
    &&& post.last_point == pre.last_point
    &&& post.formats == pre.formats
}

impl VulkanRenderer {
    /// Every frame in flight is keyed by its own point, and no point beyond
    /// the last one handed out is in use.
    pub open spec fn wf(&self) -> bool {
        &&& frame_table(self.pending_frames).dom().finite()
        &&& forall|k: u64| #[trigger] frame_table(self.pending_frames).contains_key(k)
            ==> k <= self.last_point && frame_table(self.pending_frames)[k].point == k
    }

    /// A renderer for a device with the format table `table`: it advertises
    /// the table's formats and starts with empty pools and no frame in flight.
    pub fn new(table: &Vec<VulkanFormat>) -> (r: VulkanRenderer)
        requires
            format_table_wf(table@),
        ensures
            r.wf(),
            advertises(table@, format_table(r.formats)),
            r.command_buffers@.len() == 0,
            r.wait_semaphores@.len() == 0,
            r.total_buffers == 0,
            r.memory.is_clear(),
            frame_table(r.pending_frames).dom() == Set::<u64>::empty(),
            r.last_point == 0,
    {
        VulkanRenderer {
            formats: advertise_formats(table),
            command_buffers: Vec::new(),
            wait_semaphores: Vec::new(),
            total_buffers: 0,
            memory: Memory::new(),
            pending_frames: new_frame_map(),
            last_point: 0,
        }
    }

    /// The number of frames in flight.
    pub fn pending_count(&self) -> (r: usize)
        ensures
            r as nat == frame_table(self.pending_frames).len(),
    {
        frame_count(&self.pending_frames)
    }

    /// Whether the frame submitted at `point` is still in flight.
    pub fn is_pending(&self, point: u64) -> (r: bool)
        ensures
            r == frame_table(self.pending_frames).contains_key(point),
    {
        has_frame(&self.pending_frames, point)
    }

    /// Takes the most recently freed command buffer. When there is none, the
    /// caller allocates a new one from the pool, which is counted here.
    pub fn allocate_command_buffer(&mut self) -> (r: Option<u64>)
        requires
            old(self).total_buffers < usize::MAX,
        ensures
            command_buffer_taken(*old(self), *final(self), r),
    {
        match self.command_buffers.pop() {
            Some(b) => Some(b),
            None => {
                self.total_buffers = self.total_buffers + 1;
                None
            },
        }
    }

    /// Takes the most recently freed semaphore out of the pool, for a
    /// submission outside a frame.
    pub fn take_semaphore(&mut self) -> (r: Option<u64>)
        ensures
            old(self).wait_semaphores@.len() > 0 ==> r == Some(old(self).wait_semaphores@.last())
                && final(self).wait_semaphores@ == old(self).wait_semaphores@.drop_last(),
            old(self).wait_semaphores@.len() == 0 ==> r is None && final(self).wait_semaphores@.len() == 0,
            final(self).command_buffers == old(self).command_buffers,
            final(self).memory == old(self).memory,
            final(self).pending_frames == old(self).pending_frames,
            final(self).last_point == old(self).last_point,
            final(self).total_buffers == old(self).total_buffers,
            final(self).formats == old(self).formats,
    {
        self.wait_semaphores.pop()
    }

    /// Takes the most recently freed semaphore into the frame's wait list.
    /// When there is none, the caller creates one and adds it with
    /// `add_wait_semaphore`.
    pub fn allocate_semaphore(&mut self) -> (r: Option<u64>)
        ensures
            old(self).wait_semaphores@.len() > 0 ==> r == Some(old(self).wait_semaphores@.last())
                && final(self).wait_semaphores@ == old(self).wait_semaphores@.drop_last()
                && final(self).memory.wait_semaphores@ == old(self).memory.wait_semaphores@.push(r.unwrap()),
            old(self).wait_semaphores@.len() == 0 ==> r is None
                && final(self).wait_semaphores@.len() == 0
                && final(self).memory.wait_semaphores == old(self).memory.wait_semaphores,
            final(self).memory.sample == old(self).memory.sample,
            final(self).memory.flush == old(self).memory.flush,
            final(self).memory.flush_staging == old(self).memory.flush_staging,
            final(self).memory.textures == old(self).memory.textures,
            final(self).memory.release_fence == old(self).memory.release_fence,
            final(self).memory.release_syncfile == old(self).memory.release_syncfile,
            keeps_resources(*old(self), *final(self)),
    {
        match self.wait_semaphores.pop() {
            Some(s) => {
                self.memory.wait_semaphores.push(s);
                Some(s)
            },
            None => None,
        }
    }

    /// Adds a newly created semaphore to the frame's wait list.
    pub fn add_wait_semaphore(&mut self, id: u64)
        ensures
            final(self).memory.wait_semaphores@ == old(self).memory.wait_semaphores@.push(id),
            final(self).wait_semaphores == old(self).wait_semaphores,
            final(self).memory.sample == old(self).memory.sample,
            final(self).memory.flush == old(self).memory.flush,
            final(self).memory.flush_staging == old(self).memory.flush_staging,
            final(self).memory.textures == old(self).memory.textures,
            final(self).memory.release_fence == old(self).memory.release_fence,
            final(self).memory.release_syncfile == old(self).memory.release_syncfile,
            keeps_resources(*old(self), *final(self)),
    {
        self.memory.wait_semaphores.push(id);
    }

    /// Sorts the textures that the operations copy from: every one is held
    /// by the frame; dma-bufs are sampled across queues; shared-memory images
    /// with a pending upload are flushed first.
    pub fn collect_memory(&mut self, ops: &[GfxApiOpt], textures: &Vec<VulkanImage>)
        requires
            ops_in(ops@, textures@.len() as int),
        ensures
            final(self).memory.sample@ == sample_indices(ops@, textures@),
            final(self).memory.flush@ == flush_indices(ops@, textures@),
            final(self).memory.textures@ == old(self).memory.textures@ + texture_indices(ops@),
            final(self).memory.flush_staging == old(self).memory.flush_staging,
            final(self).memory.wait_semaphores == old(self).memory.wait_semaphores,
            final(self).memory.release_fence == old(self).memory.release_fence,
            final(self).memory.release_syncfile == old(self).memory.release_syncfile,
            final(self).wait_semaphores == old(self).wait_semaphores,
            keeps_resources(*old(self), *final(self)),
    {
        self.memory.sample.clear();
        self.memory.flush.clear();
        let ghost start = self.memory.textures@;
        let mut i: usize = 0;
        while i < ops.len()
            invariant
                i <= ops@.len(),
                ops_in(ops@, textures@.len() as int),
                self.memory.sample@ == sample_indices(ops@.subrange(0, i as int), textures@),
                self.memory.flush@ == flush_indices(ops@.subrange(0, i as int), textures@),
                self.memory.textures@ == start + texture_indices(ops@.subrange(0, i as int)),
                self.memory.flush_staging == old(self).memory.flush_staging,
                self.memory.wait_semaphores == old(self).memory.wait_semaphores,
                self.memory.release_fence == old(self).memory.release_fence,
                self.memory.release_syncfile == old(self).memory.release_syncfile,
                self.wait_semaphores == old(self).wait_semaphores,
                keeps_resources(*old(self), *self),
            decreases ops@.len() - i,
        {
            assert(ops@.subrange(0, i + 1).drop_last() =~= ops@.subrange(0, i as int));
            assert(ops@.subrange(0, i + 1).last() == ops@[i as int]);
            if let GfxApiOpt::CopyTexture { tex } = ops[i] {
                let img = &textures[tex];
                match &img.ty {
                    VulkanImageMemory::DmaBuf(_) => self.memory.sample.push(tex),
                    VulkanImageMemory::Internal(shm) => {
                        if shm.to_flush.is_some() {
                            self.memory.flush.push(tex);
                        }
                    },
                }
                self.memory.textures.push(tex);
            }
            proof {
                assert(start + texture_indices(ops@.subrange(0, i + 1)) =~= self.memory.textures@);
            }
            i += 1;
        }
        assert(ops@.subrange(0, ops@.len() as int) =~= ops@);
    }

    /// Pairs a texture that is being flushed with the staging buffer that
    /// holds its upload.
    pub fn add_flush_staging(&mut self, tex: usize, staging: StagingBuffer)
        ensures
            final(self).memory.flush_staging@ == old(self).memory.flush_staging@.push((tex, staging)),
            final(self).memory.sample == old(self).memory.sample,
            final(self).memory.flush == old(self).memory.flush,
            final(self).memory.textures == old(self).memory.textures,
            final(self).memory.wait_semaphores == old(self).memory.wait_semaphores,
            final(self).memory.release_fence == old(self).memory.release_fence,
            final(self).memory.release_syncfile == old(self).memory.release_syncfile,
            final(self).wait_semaphores == old(self).wait_semaphores,
            keeps_resources(*old(self), *final(self)),
    {
        self.memory.flush_staging.push((tex, staging));
    }

    /// Records the fence signalled when the frame completes, and the sync
    /// file exported from it, if the export worked.
    pub fn set_release(&mut self, fence: u64, syncfile: Option<i32>)
        ensures
            final(self).memory.release_fence == Some(fence),
            final(self).memory.release_syncfile == syncfile,
            final(self).memory.sample == old(self).memory.sample,
            final(self).memory.flush == old(self).memory.flush,
            final(self).memory.flush_staging == old(self).memory.flush_staging,
            final(self).memory.textures == old(self).memory.textures,
            final(self).memory.wait_semaphores == old(self).memory.wait_semaphores,
            final(self).wait_semaphores == old(self).wait_semaphores,
            keeps_resources(*old(self), *final(self)),
    {
        self.memory.release_fence = Some(fence);
        self.memory.release_syncfile = syncfile;
    }

    /// The commands of the frame that renders `ops` into `fb`.
    pub fn frame_plan(&self, fb: &VulkanImage, textures: &Vec<VulkanImage>, ops: &[GfxApiOpt], clear: bool) -> (r: FramePlan)
        requires
            self.memory.fits(textures@),
            ops_in(ops@, textures@.len() as int),
        ensures
            r.initial_images@ == initial_image_barriers(*fb, textures@, self.memory.sample@, self.memory.flush_staging@),
            r.initial_buffers@ == self.memory.flush_staging@.map_values(|p: (usize, StagingBuffer)| staging_upload_barrier(p.1)),
            r.copies@ == self.memory.flush_staging@.map_values(|p: (usize, StagingBuffer)| upload_copy(textures@[p.0 as int], p.1)),
            r.secondary_images@ == self.memory.flush@.map_values(|i: usize| flush_secondary_barrier(textures@[i as int])),
            r.pass == (RenderPass { image: fb.id, width: fb.width, height: fb.height, clear }),
            r.draws@ == draw_cmds(ops@, textures@, ops@.len() as int),
            r.final_images@ == final_image_barriers(*fb, textures@, self.memory.sample@),
    {
        let (initial_images, initial_buffers) = initial_barriers(fb, textures, &self.memory.sample, &self.memory.flush_staging);
        FramePlan {
            initial_images,
            initial_buffers,
            copies: copy_shm_to_image(textures, &self.memory.flush_staging),
            secondary_images: secondary_barriers(textures, &self.memory.flush),
            pass: begin_rendering(fb, clear),
            draws: record_draws(ops, textures),
            final_images: final_barriers(fb, textures, &self.memory.sample),
        }
    }

    /// The sync-file requests for the frame's dma-bufs: one per plane of each
    /// texture the frame copies from, with `texture_flag`, then one per plane
    /// of the framebuffer, with `fb_flag`.
    pub fn sync_requests(&self, fb: &VulkanImage, textures: &Vec<VulkanImage>, texture_flag: u32, fb_flag: u32) -> (r: Vec<SyncRequest>)
        requires
            indices_in(self.memory.textures@, textures@.len() as int),
        ensures
            r@ == texture_requests(self.memory.textures@, textures@, texture_flag) + plane_requests(*fb, fb_flag),
    {
        let mut r: Vec<SyncRequest> = Vec::new();
        let mut k: usize = 0;
        while k < self.memory.textures.len()
            invariant
                k <= self.memory.textures@.len(),
                indices_in(self.memory.textures@, textures@.len() as int),
                r@ == texture_requests(self.memory.textures@.subrange(0, k as int), textures@, texture_flag),
            decreases self.memory.textures@.len() - k,
        {
            assert(self.memory.textures@.subrange(0, k + 1).drop_last() =~= self.memory.textures@.subrange(0, k as int));
            push_plane_requests(&mut r, &textures[self.memory.textures[k]], texture_flag);
            k += 1;
        }
        assert(self.memory.textures@.subrange(0, self.memory.textures@.len() as int) =~= self.memory.textures@);
        push_plane_requests(&mut r, fb, fb_flag);
        r
    }

    /// Marks the frame's writes as done: the framebuffer and every flushed
    /// image now hold defined contents, and the flushed uploads are dropped.
    fn store_layouts(&self, fb: &mut VulkanImage, textures: &mut Vec<VulkanImage>)
        requires
            indices_in(self.memory.flush@, old(textures)@.len() as int),
        ensures
            *final(fb) == (VulkanImage { is_undefined: false, ..*old(fb) }),
            final(textures)@.len() == old(textures)@.len(),
            forall|j: int| 0 <= j < final(textures)@.len() ==> {
                let o = #[trigger] old(textures)@[j];
                let n = final(textures)@[j];
                if names(self.memory.flush@, j) {
                    n == flushed(o)
                } else {
                    n == o
                }
            },
    {
        fb.is_undefined = false;
        let mut k: usize = 0;
        while k < self.memory.flush.len()
            invariant
                k <= self.memory.flush@.len(),
                indices_in(self.memory.flush@, old(textures)@.len() as int),
                textures@.len() == old(textures)@.len(),
                forall|j: int| 0 <= j < textures@.len() ==> {
                    let o = #[trigger] old(textures)@[j];
                    let n = textures@[j];
                    if names(self.memory.flush@.subrange(0, k as int), j) {
                        n == flushed(o)
                    } else {
                        n == o
                    }
                },
            decreases self.memory.flush@.len() - k,
        {
            let i = self.memory.flush[k];
            let ghost before = textures@;
            textures[i].is_undefined = false;
            match &mut textures[i].ty {
                VulkanImageMemory::DmaBuf(_) => {},
                VulkanImageMemory::Internal(shm) => {
                    shm.to_flush = None;
                },
            }
            proof {
                let next = self.memory.flush@.subrange(0, k + 1);
                let prev = self.memory.flush@.subrange(0, k as int);
                assert forall|j: int| 0 <= j < textures@.len() implies {
                    let o = #[trigger] old(textures)@[j];
                    let n = textures@[j];
                    if names(next, j) {
                        n == flushed(o)
                    } else {
                        n == o
                    }
                } by {
                    assert(next[k as int] == i);
                    if j == i as int {
                        assert(names(next, j));
                        if names(prev, j) {
                            assert(before[j] == flushed(old(textures)@[j]));
                        }
                    } else {
                        assert(textures@[j] == before[j]);
                        if names(next, j) {
                            let m = choose|m: int| 0 <= m < next.len() && next[m] as int == j;
                            assert(prev[m] as int == j);
                        }
                        if names(prev, j) {
                            let m = choose|m: int| 0 <= m < prev.len() && prev[m] as int == j;
                            assert(next[m] as int == j);
                        }
                    }
                }
            }
            k += 1;
        }
        assert(self.memory.flush@.subrange(0, self.memory.flush@.len() as int) =~= self.memory.flush@);
    }

    /// Registers the submitted frame under the next point, moving into it the
    /// command buffer and what the working set holds.
    fn create_pending_frame(&mut self, cmd: u64, textures: &Vec<VulkanImage>) -> (r: u64)
        requires
            old(self).wf(),
            old(self).last_point < u64::MAX,
            indices_in(old(self).memory.textures@, textures@.len() as int),
        ensures
            final(self).wf(),
            r == old(self).last_point + 1,
            final(self).last_point == r,
            !frame_table(old(self).pending_frames).contains_key(r),
            frame_table(final(self).pending_frames) == frame_table(old(self).pending_frames).insert(r, frame_table(final(self).pending_frames)[r]),
            frame_table(final(self).pending_frames)[r].point == r,
            frame_table(final(self).pending_frames)[r].cmd == cmd,
            frame_table(final(self).pending_frames)[r].wait_semaphores@ == old(self).memory.wait_semaphores@,
            frame_table(final(self).pending_frames)[r].staging@ == old(self).memory.flush_staging@.map_values(|p: (usize, StagingBuffer)| p.1),
            frame_table(final(self).pending_frames)[r].textures@ == old(self).memory.textures@.map_values(|i: usize| textures@[i as int].id),
            frame_table(final(self).pending_frames)[r].release_fence == old(self).memory.release_fence,
            frame_table(final(self).pending_frames)[r].release_syncfile == old(self).memory.release_syncfile,
            final(self).command_buffers == old(self).command_buffers,
            final(self).wait_semaphores == old(self).wait_semaphores,
            final(self).total_buffers == old(self).total_buffers,
            final(self).formats == old(self).formats,
    {
        let point = self.last_point + 1;
        self.last_point = point;
        let mut ids: Vec<u64> = Vec::new();
        let mut k: usize = 0;
        while k < self.memory.textures.len()
            invariant
                k <= self.memory.textures@.len(),
                indices_in(self.memory.textures@, textures@.len() as int),
                ids@ == self.memory.textures@.subrange(0, k as int).map_values(|i: usize| textures@[i as int].id),
            decreases self.memory.textures@.len() - k,
        {
            ids.push(textures[self.memory.textures[k]].id);
            assert(self.memory.textures@.subrange(0, k + 1).map_values(|i: usize| textures@[i as int].id)
                =~= self.memory.textures@.subrange(0, k as int).map_values(|i: usize| textures@[i as int].id)
                    .push(textures@[self.memory.textures@[k as int] as int].id));
            k += 1;
        }
        assert(self.memory.textures@.subrange(0, self.memory.textures@.len() as int) =~= self.memory.textures@);
        let mut staging: Vec<StagingBuffer> = Vec::new();
        let mut k: usize = 0;
        while k < self.memory.flush_staging.len()
            invariant
                k <= self.memory.flush_staging@.len(),
                staging@ == self.memory.flush_staging@.subrange(0, k as int).map_values(|p: (usize, StagingBuffer)| p.1),
            decreases self.memory.flush_staging@.len() - k,
        {
            staging.push(self.memory.flush_staging[k].1);
            assert(self.memory.flush_staging@.subrange(0, k + 1).map_values(|p: (usize, StagingBuffer)| p.1)
                =~= self.memory.flush_staging@.subrange(0, k as int).map_values(|p: (usize, StagingBuffer)| p.1)
                    .push(self.memory.flush_staging@[k as int].1));
            k += 1;
        }
        assert(self.memory.flush_staging@.subrange(0, self.memory.flush_staging@.len() as int) =~= self.memory.flush_staging@);
        let mut wait_semaphores: Vec<u64> = Vec::new();
        std::mem::swap(&mut wait_semaphores, &mut self.memory.wait_semaphores);
        let frame = PendingFrame {
            point,
            cmd,
            textures: ids,
            staging,
            wait_semaphores,
            release_fence: self.memory.release_fence,
            release_syncfile: self.memory.release_syncfile,
        };
        let ghost f = frame;
        insert_frame(&mut self.pending_frames, point, frame);
        proof {
            assert(frame_table(self.pending_frames)[point] == f);
            assert forall|k: u64| #[trigger] frame_table(self.pending_frames).contains_key(k)
                implies k <= self.last_point && frame_table(self.pending_frames)[k].point == k by {
                if k != point {
                    assert(frame_table(old(self).pending_frames).contains_key(k));
                }
            }
            assert(frame_table(self.pending_frames) =~= frame_table(old(self).pending_frames).insert(point, f));
        }
        point
    }

    /// Empties the working set.
    fn clear_memory(&mut self)
        ensures
            final(self).memory.is_clear(),
            final(self).command_buffers == old(self).command_buffers,
            final(self).wait_semaphores == old(self).wait_semaphores,
            final(self).total_buffers == old(self).total_buffers,
            final(self).pending_frames == old(self).pending_frames,
            final(self).last_point == old(self).last_point,
            final(self).formats == old(self).formats,
    {
        self.memory.flush.clear();
        self.memory.textures.clear();
        self.memory.flush_staging.clear();
        self.memory.sample.clear();
        self.memory.wait_semaphores.clear();
        self.memory.release_fence = None;
        self.memory.release_syncfile = None;
    }

    /// Finishes a frame. `submitted` is the outcome of recording and
    /// submitting it: the command buffer on success, or the first error. On
    /// success the framebuffer and the flushed textures are marked as
    /// written and the frame is registered under a new point, which is
    /// returned. Either way the working set is emptied.
    pub fn execute(&mut self, fb: &mut VulkanImage, textures: &mut Vec<VulkanImage>, submitted: Result<u64, VulkanError>) -> (r: Result<u64, VulkanError>)
        requires
            old(self).wf(),
            old(self).last_point < u64::MAX,
            old(self).memory.fits(old(textures)@),
        ensures
            final(self).wf(),
            final(self).memory.is_clear(),
            submitted is Ok <==> r is Ok,
            submitted matches Err(e) ==> r == Err::<u64, VulkanError>(e),
            r matches Ok(point) ==> frame_registered(*old(self), *final(self), submitted->Ok_0, old(textures)@, point),
            r is Ok ==> *final(fb) == (VulkanImage { is_undefined: false, ..*old(fb) }),
            final(textures)@.len() == old(textures)@.len(),
            r is Ok ==> forall|j: int| 0 <= j < final(textures)@.len() ==> #[trigger] final(textures)@[j]
                == if names(old(self).memory.flush@, j) { flushed(old(textures)@[j]) } else { old(textures)@[j] },
            r is Err ==> final(self).command_buffers == old(self).command_buffers
                && final(self).wait_semaphores == old(self).wait_semaphores
                && final(self).total_buffers == old(self).total_buffers
                && final(self).pending_frames == old(self).pending_frames
                && final(self).last_point == old(self).last_point
                && *final(fb) == *old(fb)
                && final(textures)@ == old(textures)@,
    {
        let res = match submitted {
            Ok(cmd) => {
                let ghost before = textures@;
                self.store_layouts(fb, textures);
                proof {
                    assert forall|j: int| 0 <= j < before.len() implies #[trigger] textures@[j].id == before[j].id by {
                        assert(textures@[j] == if names(self.memory.flush@, j) { flushed(before[j]) } else { before[j] });
                    }
                    assert(self.memory.textures@.map_values(|i: usize| textures@[i as int].id)
                        =~= self.memory.textures@.map_values(|i: usize| before[i as int].id));
                }
                let point = self.create_pending_frame(cmd, textures);
                Ok(point)
            },
            Err(e) => Err(e),
        };
        self.clear_memory();
        proof {
            if let Ok(point) = res {
                assert(frame_table(self.pending_frames).remove(point) =~= frame_table(old(self).pending_frames));
                assert(frame_table(self.pending_frames).dom() =~= frame_table(old(self).pending_frames).dom().insert(point));
            }
        }
        res
    }

    /// Tears down the frame submitted at `point` once the GPU is done with
    /// it: its command buffer and semaphores go back to the pools and the
    /// frame leaves the table. The frame is returned so that the caller can
    /// drop what it held; `None` when no frame is pending at `point`.
    pub fn release_frame(&mut self, point: u64) -> (r: Option<PendingFrame>)
        requires
            old(self).wf(),
        ensures
            final(self).wf(),
            r is Some <==> frame_table(old(self).pending_frames).contains_key(point),
            r matches Some(f) ==> frame_released(*old(self), *final(self), point, f),
            r is None ==> final(self).command_buffers == old(self).command_buffers
                && final(self).wait_semaphores == old(self).wait_semaphores
                && frame_table(final(self).pending_frames) == frame_table(old(self).pending_frames),
            final(self).memory == old(self).memory,
            final(self).last_point == old(self).last_point,
            final(self).total_buffers == old(self).total_buffers,
            final(self).formats == old(self).formats,
    {
        let frame = remove_frame(&mut self.pending_frames, point);
        proof {
            if frame is None {
                assert(frame_table(self.pending_frames) =~= frame_table(old(self).pending_frames));
            }
            assert forall|k: u64| #[trigger] frame_table(self.pending_frames).contains_key(k)
                implies k <= self.last_point && frame_table(self.pending_frames)[k].point == k by {
                assert(frame_table(old(self).pending_frames).contains_key(k));
            }
        }
        match frame {
            Some(f) => {
                self.command_buffers.push(f.cmd);
                let ghost pool = self.wait_semaphores@;
                let mut k: usize = 0;
                while k < f.wait_semaphores.len()
                    invariant
                        k <= f.wait_semaphores@.len(),
                        self.wait_semaphores@ == pool + f.wait_semaphores@.subrange(0, k as int),
                        self.command_buffers@ == old(self).command_buffers@.push(f.cmd),
                        frame_table(self.pending_frames) == frame_table(old(self).pending_frames).remove(point),
                        self.memory == old(self).memory,
                        self.last_point == old(self).last_point,
                        self.total_buffers == old(self).total_buffers,
                        self.formats == old(self).formats,
                    decreases f.wait_semaphores@.len() - k,
                {
                    self.wait_semaphores.push(f.wait_semaphores[k]);
                    assert(pool + f.wait_semaphores@.subrange(0, k + 1) =~= (pool + f.wait_semaphores@.subrange(0, k as int)).push(f.wait_semaphores@[k as int]));
                    k += 1;
                }
                assert(f.wait_semaphores@.subrange(0, f.wait_semaphores@.len() as int) =~= f.wait_semaphores@);
                Some(f)
            },
            None => None,
        }
    }

    /// Drops every frame in flight, as when the context goes away. Returns
    /// whether any was pending, in which case the caller waits for the device
    /// to go idle and cancels the frames' watchers.
    pub fn on_drop(&mut self) -> (r: bool)
        ensures
            r == (frame_table(old(self).pending_frames).len() > 0),
            frame_table(final(self).pending_frames).dom() == Set::<u64>::empty(),
            final(self).last_point == old(self).last_point,
            final(self).command_buffers == old(self).command_buffers,
            final(self).wait_semaphores == old(self).wait_semaphores,
            final(self).memory == old(self).memory,
            final(self).wf(),
    {
        let pending = frame_count(&self.pending_frames) > 0;
        self.pending_frames = new_frame_map();
        proof {
            assert(frame_table(self.pending_frames).dom().finite());
        }
        pending
    }

    /// Puts back the command buffer and semaphores used by a blocking
    /// readback once the device is idle.
    pub fn finish_readback(&mut self, cmd: u64, semaphores: Vec<u64>)
        ensures
            final(self).command_buffers@ == old(self).command_buffers@.push(cmd),
            final(self).wait_semaphores@ == old(self).wait_semaphores@ + semaphores@,
            final(self).memory == old(self).memory,
            final(self).pending_frames == old(self).pending_frames,
            final(self).last_point == old(self).last_point,
            final(self).total_buffers == old(self).total_buffers,
            final(self).formats == old(self).formats,
    {
        self.command_buffers.push(cmd);
        let ghost pool = self.wait_semaphores@;
        let mut k: usize = 0;
        while k < semaphores.len()
            invariant
                k <= semaphores@.len(),
                self.wait_semaphores@ == pool + semaphores@.subrange(0, k as int),
                self.command_buffers@ == old(self).command_buffers@.push(cmd),
                self.memory == old(self).memory,
                self.pending_frames == old(self).pending_frames,
                self.last_point == old(self).last_point,
                self.total_buffers == old(self).total_buffers,
                self.formats == old(self).formats,
            decreases semaphores@.len() - k,
        {
            self.wait_semaphores.push(semaphores[k]);
            assert(pool + semaphores@.subrange(0, k + 1) =~= (pool + semaphores@.subrange(0, k as int)).push(semaphores@[k as int]));
            k += 1;
        }
        assert(semaphores@.subrange(0, semaphores@.len() as int) =~= semaphores@);
    }
}

/// Whether the watcher of a frame must wait for the whole device before
/// recycling the frame's resources: when the frame had no release sync file,
/// or waiting for it failed.
pub fn release_needs_block(has_syncfile: bool, wait_ok: bool) -> (r: bool)
    ensures
        r == !(has_syncfile && wait_ok),
{
    !(has_syncfile && wait_ok)
}

/// The sync-file requests of a readback from `tex`: one read request per
/// plane when it is a dma-buf.
pub fn readback_sync_requests(tex: &VulkanImage) -> (r: Vec<SyncRequest>)
    ensures
        r@ == plane_requests(*tex, DMA_BUF_SYNC_READ),
{
    let mut r: Vec<SyncRequest> = Vec::new();
    push_plane_requests(&mut r, tex, DMA_BUF_SYNC_READ);
    assert(r@ =~= plane_requests(*tex, DMA_BUF_SYNC_READ));
    r
}

/// A successful frame adds exactly one frame in flight, under the point
/// after the last one; once its watcher has released it, the frame is gone
/// and the pools of command buffers and semaphores hold at least as many as
/// before the frame took from them.
pub proof fn lemma_frame_accounting(
    pre: VulkanRenderer,
    taken: VulkanRenderer,
    built: VulkanRenderer,
    done: VulkanRenderer,
    released: VulkanRenderer,
    cb: Option<u64>,
    cmd: u64,
    textures: Seq<VulkanImage>,
    point: u64,
    frame: PendingFrame,
)
    requires
        pre.wf(),
        pre.memory.is_clear(),
        command_buffer_taken(pre, taken, cb),
        cb matches Some(c) ==> c == cmd,
        keeps_resources(taken, built),
        frame_registered(built, done, cmd, textures, point),
        frame_released(done, released, point, frame),
    ensures
        point == pre.last_point + 1,
        !frame_table(pre.pending_frames).contains_key(point),
        frame_table(done.pending_frames).len() == frame_table(pre.pending_frames).len() + 1,
        frame_table(done.pending_frames).contains_key(point),
        !frame_table(released.pending_frames).contains_key(point),
        released.command_buffers@.len() >= pre.command_buffers@.len(),
        released.wait_semaphores@.len() >= pre.wait_semaphores@.len(),
{
    assert(frame_table(done.pending_frames).dom().contains(point));
    assert(frame_table(done.pending_frames).dom() =~= frame_table(pre.pending_frames).dom().insert(point));
}

/// Submission points only grow: a frame registered after another one, with
/// anything in between that does not lower the last point, gets a larger
/// point, and a point is never handed out twice.
pub proof fn lemma_points_monotone(
    r0: VulkanRenderer,
    r1: VulkanRenderer,
    r2: VulkanRenderer,
    r3: VulkanRenderer,
    cmd1: u64,
    cmd2: u64,
    tex1: Seq<VulkanImage>,
    tex2: Seq<VulkanImage>,
    p1: u64,
    p2: u64,
)
    requires
        frame_registered(r0, r1, cmd1, tex1, p1),
        r2.last_point >= r1.last_point,
        frame_registered(r2, r3, cmd2, tex2, p2),
    ensures
        r0.last_point < p1,
        p1 < p2,
        r3.last_point == p2,
        !frame_table(r2.pending_frames).contains_key(p2),
{
}

/// The first frame that uses an image leaves it defined: after a successful
/// frame, every shared-memory texture that an operation copied from with an
/// upload pending holds defined contents and no longer has the upload.
pub proof fn lemma_uploads_flushed(ops: Seq<GfxApiOpt>, before: Seq<VulkanImage>, after: Seq<VulkanImage>, k: int)
    requires
        ops_in(ops, before.len() as int),
        after.len() == before.len(),
        forall|j: int| 0 <= j < after.len() ==> #[trigger] after[j]
            == if names(flush_indices(ops, before), j) { flushed(before[j]) } else { before[j] },
        0 <= k < ops.len(),
        ops[k] matches GfxApiOpt::CopyTexture { tex } && before[tex as int].ty matches VulkanImageMemory::Internal(shm)
            && shm.to_flush is Some,
    ensures
        !after[ops[k]->tex as int].is_undefined,
        after[ops[k]->tex as int].ty->Internal_0.to_flush is None,
{
    lemma_flush_indices_names(ops, before, k);
    let t = ops[k]->tex as int;
    assert(after[t] == flushed(before[t]));
}

proof fn lemma_flush_indices_names(ops: Seq<GfxApiOpt>, textures: Seq<VulkanImage>, k: int)
    requires
        0 <= k < ops.len(),
        ops[k] matches GfxApiOpt::CopyTexture { tex } && textures[tex as int].ty matches VulkanImageMemory::Internal(shm)
            && shm.to_flush is Some,
    ensures
        names(flush_indices(ops, textures), ops[k]->tex as int),
    decreases ops.len(),
{
    let init = ops.drop_last();
    let rest = flush_indices(init, textures);
    if k < ops.len() - 1 {
        assert(init[k] == ops[k]);
        lemma_flush_indices_names(init, textures, k);
        let m = choose|m: int| 0 <= m < rest.len() && rest[m] as int == ops[k]->tex as int;
        assert(flush_indices(ops, textures)[m] == rest[m]);
    } else {
        assert(flush_indices(ops, textures) == rest.push(ops[k]->tex));
        assert(flush_indices(ops, textures)[rest.len() as int] == ops[k]->tex);
    }
}

/// An image after a frame wrote it: defined, with no upload pending.
pub open spec fn flushed(img: VulkanImage) -> VulkanImage {
    VulkanImage {
        is_undefined: false,
        ty: match img.ty {
            VulkanImageMemory::Internal(shm) => VulkanImageMemory::Internal(crate::image::ShmMemory { to_flush: None, ..shm }),
            VulkanImageMemory::DmaBuf(b) => VulkanImageMemory::DmaBuf(b),
        },
        ..img
    }
}

/// Appends the sync requests for the planes of `img`.
fn push_plane_requests(r: &mut Vec<SyncRequest>, img: &VulkanImage, flag: u32)
    ensures
        final(r)@ == old(r)@ + plane_requests(*img, flag),
{
    match &img.ty {
        VulkanImageMemory::Internal(_) => {
            assert(old(r)@ + plane_requests(*img, flag) =~= old(r)@);
        },
        VulkanImageMemory::DmaBuf(buf) => {
            let ghost start = r@;
            let mut k: usize = 0;
            while k < buf.planes.len()
                invariant
                    k <= buf.planes@.len(),
                    r@ == start + buf.planes@.subrange(0, k as int).map_values(|p: DmaBufPlane| SyncRequest { fd: p.fd, flag }),
                decreases buf.planes@.len() - k,
            {
                r.push(SyncRequest { fd: buf.planes[k].fd, flag });
                assert(buf.planes@.subrange(0, k + 1).map_values(|p: DmaBufPlane| SyncRequest { fd: p.fd, flag })
                    =~= buf.planes@.subrange(0, k as int).map_values(|p: DmaBufPlane| SyncRequest { fd: p.fd, flag })
                        .push(SyncRequest { fd: buf.planes@[k as int].fd, flag }));
                k += 1;
            }
            assert(buf.planes@.subrange(0, buf.planes@.len() as int) =~= buf.planes@);
        },
    }
}

} // verus!
