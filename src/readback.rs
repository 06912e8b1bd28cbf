use vstd::prelude::*;

use crate::command::{Access, BufferBarrier, BufferImageCopy, ImageBarrier, ImageLayout, QueueFamily, Stage, StagingBuffer};
use crate::error::VulkanError;
use crate::format::Format;
use crate::image::VulkanImage;

verus! {

/// The offset in the source texture of a readback that goes through a
/// temporary shared-memory texture.
#[derive(Debug, Clone, Copy, PartialEq, Eq)]
pub struct TmpShmTexture(pub i32, pub i32);

/// How a readback proceeds: straight from the texture, when the request
/// covers all of it in its own format, or by first copying the requested
/// rectangle into a temporary texture of the requested size and format.
#[derive(Debug, Clone, Copy, PartialEq, Eq)]
pub enum ReadPath {
    Whole,
    Blit(TmpShmTexture),
}

/// The commands of a readback of a whole texture into a staging buffer.
#[derive(Debug, Clone, Copy, PartialEq, Eq)]
pub struct ReadbackPlan {
    pub initial_image: ImageBarrier,
    pub initial_buffer: BufferBarrier,
    pub copy: BufferImageCopy,
    pub final_image: ImageBarrier,
    pub final_buffer: BufferBarrier,
}

/// The outcome of the parameter checks of `read_pixels`.
pub open spec fn read_path_result(tex: VulkanImage, x: i32, y: i32, width: i32, height: i32, stride: i32, format: Format) -> Result<ReadPath, VulkanError> {
    if x < 0 || y < 0 || width <= 0 || height <= 0 || stride <= 0 {
        Err(VulkanError::InvalidShmParameters { x, y, width, height, stride })
    } else if x == 0 && y == 0 && width as u32 == tex.width && height as u32 == tex.height && format == tex.format {
        Ok(ReadPath::Whole)
    } else {
        Ok(ReadPath::Blit(TmpShmTexture(x, y)))
    }
}

/// Checks the parameters of a readback of the rectangle at (`x`, `y`) of
/// size `width` x `height` into rows of `stride` bytes in `format`, and
/// picks the way to do it.
pub fn read_pixels_path(tex: &VulkanImage, x: i32, y: i32, width: i32, height: i32, stride: i32, format: Format) -> (r: Result<ReadPath, VulkanError>)
    ensures
        r == read_path_result(*tex, x, y, width, height, stride, format),
{
    if x < 0 || y < 0 || width <= 0 || height <= 0 || stride <= 0 {
        return Err(VulkanError::InvalidShmParameters { x, y, width, height, stride });
    }
    if x == 0 && y == 0 && width as u32 == tex.width && height as u32 == tex.height && format == tex.format {
        return Ok(ReadPath::Whole);
    }
    Ok(ReadPath::Blit(TmpShmTexture(x, y)))
}

/// The outcome of the checks of a whole-texture readback into `dst_len`
/// bytes with rows of `stride` bytes: the size of the staging buffer.
pub open spec fn read_all_result(tex: VulkanImage, stride: u32, dst_len: usize) -> Result<u64, VulkanError> {
    if (stride as int) < (tex.width as int) * (tex.format.bpp as int) || stride % tex.format.bpp != 0 {
        Err(VulkanError::InvalidStride)
    } else if (stride as int) * (tex.height as int) != dst_len as int {
        Err(VulkanError::InvalidBufferSize)
    } else {
        Ok(((stride as int) * (tex.height as int)) as u64)
    }
}

/// Checks that rows of `stride` bytes hold the texture's rows and a whole
/// number of pixels, and that the destination is exactly as large as the
/// texture at that stride. Returns that size.
pub fn check_read_all(tex: &VulkanImage, stride: u32, dst_len: usize) -> (r: Result<u64, VulkanError>)
    requires
        tex.format.bpp > 0,
    ensures
        r == read_all_result(*tex, stride, dst_len),
{
    proof {
        assert((tex.width as int) * (tex.format.bpp as int) <= 0xffff_ffffu64 * 0xffff_ffffu64) by (nonlinear_arith)
            requires tex.width <= 0xffff_ffffu32, tex.format.bpp <= 0xffff_ffffu32;
        assert((stride as int) * (tex.height as int) <= 0xffff_ffffu64 * 0xffff_ffffu64) by (nonlinear_arith)
            requires stride <= 0xffff_ffffu32, tex.height <= 0xffff_ffffu32;
    }
    if (stride as u64) < (tex.width as u64) * (tex.format.bpp as u64) || stride % tex.format.bpp != 0 {
        return Err(VulkanError::InvalidStride);
    }
    let size = (stride as u64) * (tex.height as u64);
    if size != dst_len as u64 {
        return Err(VulkanError::InvalidBufferSize);
    }
    Ok(size)
}

/// The commands that copy the whole of `tex` into `staging` with rows of
/// `stride` bytes: the texture comes from its foreign owner into the
/// transfer-source layout and goes back after the copy; the staging buffer's
/// contents become visible to the host.
pub fn readback_plan(tex: &VulkanImage, stride: u32, staging: StagingBuffer) -> (r: ReadbackPlan)
    requires
        tex.format.bpp > 0,
    ensures
        r.initial_image == (ImageBarrier {
            image: tex.id,
            src_queue: QueueFamily::Foreign,
            dst_queue: QueueFamily::Graphics,
            old_layout: ImageLayout::General,
            new_layout: ImageLayout::TransferSrcOptimal,
            src_access: Access::Empty,
            src_stage: Stage::Empty,
            dst_access: Access::TransferRead,
            dst_stage: Stage::Transfer,
        }),
        r.initial_buffer == (BufferBarrier {
            buffer: staging.id,
            size: staging.size,
            src_access: Access::Empty,
            src_stage: Stage::Empty,
            dst_access: Access::TransferWrite,
            dst_stage: Stage::Transfer,
        }),
        r.copy == (BufferImageCopy {
            buffer: staging.id,
            image: tex.id,
            row_length: stride / tex.format.bpp,
            width: tex.width,
            height: tex.height,
        }),
        r.final_image == (ImageBarrier {
            image: tex.id,
            src_queue: QueueFamily::Graphics,
            dst_queue: QueueFamily::Foreign,
            old_layout: ImageLayout::TransferSrcOptimal,
            new_layout: ImageLayout::General,
            src_access: Access::TransferRead,
            src_stage: Stage::Transfer,
            dst_access: Access::Empty,
            dst_stage: Stage::Empty,
        }),
        r.final_buffer == (BufferBarrier {
            buffer: staging.id,
            size: staging.size,
            src_access: Access::TransferWrite,
            src_stage: Stage::Transfer,
            dst_access: Access::HostRead,
            dst_stage: Stage::Host,
        }),
{
    ReadbackPlan {
        initial_image: ImageBarrier {
            image: tex.id,
            src_queue: QueueFamily::Foreign,
            dst_queue: QueueFamily::Graphics,
            old_layout: ImageLayout::General,
            new_layout: ImageLayout::TransferSrcOptimal,
            src_access: Access::Empty,
            src_stage: Stage::Empty,
            dst_access: Access::TransferRead,
            dst_stage: Stage::Transfer,
        },
        initial_buffer: BufferBarrier {
            buffer: staging.id,
            size: staging.size,
            src_access: Access::Empty,
            src_stage: Stage::Empty,
            dst_access: Access::TransferWrite,
            dst_stage: Stage::Transfer,
        },
        copy: BufferImageCopy {
            buffer: staging.id,
            image: tex.id,
            row_length: stride / tex.format.bpp,
            width: tex.width,
            height: tex.height,
        },
        final_image: ImageBarrier {
            image: tex.id,
            src_queue: QueueFamily::Graphics,
            dst_queue: QueueFamily::Foreign,
            old_layout: ImageLayout::TransferSrcOptimal,
            new_layout: ImageLayout::General,
            src_access: Access::TransferRead,
            src_stage: Stage::Transfer,
            dst_access: Access::Empty,
            dst_stage: Stage::Empty,
        },
        final_buffer: BufferBarrier {
            buffer: staging.id,
            size: staging.size,
            src_access: Access::TransferWrite,
            src_stage: Stage::Transfer,
            dst_access: Access::HostRead,
            dst_stage: Stage::Host,
        },
    }
}

} // verus!
