use vstd::prelude::*;

use crate::error::VulkanError;
use crate::format::{Format, MaxExtents, Modifier, VulkanFormat, VulkanModifier};

verus! {

/// One plane of a dma-buf: the file descriptor that holds it, and where the
/// plane starts and how long its rows are.
#[derive(Debug, Clone, Copy, PartialEq, Eq)]
pub struct DmaBufPlane {
    pub fd: i32,
    pub offset: u32,
    pub stride: u32,
}

/// An external buffer shared with the kernel. `is_disjoint` tells whether
/// its planes live in different memory objects.
#[derive(Debug, Clone)]
pub struct DmaBuf {
    pub width: i32,
    pub height: i32,
    pub format: Format,
    pub modifier: Modifier,
    pub planes: Vec<DmaBufPlane>,
    pub is_disjoint: bool,
}

/// The host-side state of a shared-memory image: its row stride, its total
/// size in bytes, and the most recent upload not yet copied to the GPU.
#[derive(Debug, Clone)]
pub struct ShmMemory {
    pub stride: u32,
    pub size: u64,
    pub to_flush: Option<Vec<u8>>,
}

/// Where the memory of an image comes from.
#[derive(Debug, Clone)]
pub enum VulkanImageMemory {
    DmaBuf(DmaBuf),
    Internal(ShmMemory),
}

/// An image known to the renderer. `id` names the Vulkan image;
/// `is_undefined` holds until the first write and decides the layout that
/// the first barrier starts from.
#[derive(Debug, Clone)]
pub struct VulkanImage {
    pub id: u64,
    pub width: u32,
    pub height: u32,
    pub format: Format,
    pub has_render_view: bool,
    pub is_undefined: bool,
    pub ty: VulkanImageMemory,
}

/// The roles that an imported dma-buf can take.
#[derive(Debug, Clone, Copy, PartialEq, Eq)]
pub struct DmaBufUsage {
    pub sampled: bool,
    pub render: bool,
}

/// The validated geometry of a shared-memory image.
#[derive(Debug, Clone, Copy, PartialEq, Eq)]
pub struct ShmLayout {
    pub width: u32,
    pub height: u32,
    pub stride: u32,
    pub size: u64,
}

/// A bound admits an image of the given extent.
pub open spec fn covers(e: Option<MaxExtents>, width: int, height: int) -> bool {
    e matches Some(e) && width <= e.width && height <= e.height
}

/// The index of the entry for `drm` in the device table, if there is one.
pub open spec fn format_index(table: Seq<VulkanFormat>, drm: u32) -> Option<int> {
    if exists|i: int| 0 <= i < table.len() && #[trigger] table[i].format.drm == drm {
        Some(choose|i: int| 0 <= i < table.len() && #[trigger] table[i].format.drm == drm)
    } else {
        None
    }
}

/// The device supports `drm` at all.
pub open spec fn has_format(table: Seq<VulkanFormat>, drm: u32) -> bool {
    exists|i: int| 0 <= i < table.len() && #[trigger] table[i].format.drm == drm
}

/// The entry of `mods` for `m`, under the assumption that there is one.
pub open spec fn has_modifier(mods: Seq<VulkanModifier>, m: Modifier) -> bool {
    exists|i: int| 0 <= i < mods.len() && #[trigger] mods[i].modifier == m
}

/// The first entry of the table for `drm`, when the table has one.
pub open spec fn entry_for(table: Seq<VulkanFormat>, drm: u32) -> VulkanFormat
    recommends has_format(table, drm),
{
    table[choose|i: int| 0 <= i < table.len() && #[trigger] table[i].format.drm == drm]
}

/// What importing `buf` against the device table yields: the roles it can
/// take, or the first check that it fails. The checks run in this order:
/// format, modifier, plane count, disjointness, positive size, a role at
/// all, a role that admits the extent.
pub open spec fn dmabuf_import_result(table: Seq<VulkanFormat>, buf: DmaBuf) -> Result<DmaBufUsage, VulkanError> {
    if !has_format(table, buf.format.drm) {
        Err(VulkanError::FormatNotSupported)
    } else {
        let f = entry_for(table, buf.format.drm);
        if !has_modifier(f.modifiers@, buf.modifier) {
            Err(VulkanError::ModifierNotSupported)
        } else {
            let m = f.modifiers@[choose|i: int| 0 <= i < f.modifiers@.len() && #[trigger] f.modifiers@[i].modifier == buf.modifier];
            if m.planes != buf.planes@.len() {
                Err(VulkanError::BadPlaneCount)
            } else if buf.is_disjoint && !m.supports_disjoint {
                Err(VulkanError::DisjointNotSupported)
            } else if buf.width <= 0 || buf.height <= 0 {
                Err(VulkanError::NonPositiveImageSize)
            } else if m.texture_max_extents is None && m.render_max_extents is None {
                Err(VulkanError::ModifierUseNotSupported)
            } else if !covers(m.texture_max_extents, buf.width as int, buf.height as int)
                && !covers(m.render_max_extents, buf.width as int, buf.height as int) {
                Err(VulkanError::ImageTooLarge)
            } else {
                Ok(DmaBufUsage {
                    sampled: covers(m.texture_max_extents, buf.width as int, buf.height as int),
                    render: covers(m.render_max_extents, buf.width as int, buf.height as int),
                })
            }
        }
    }
}

/// Finds the entry of the device table for `drm`.
pub fn find_format(table: &Vec<VulkanFormat>, drm: u32) -> (r: Option<usize>)
    requires
        crate::format::format_table_wf(table@),
    ensures
        r is Some <==> has_format(table@, drm),
        r matches Some(i) ==> i < table@.len() && table@[i as int].format.drm == drm
            && table@[i as int] == entry_for(table@, drm),
{
    let mut i: usize = 0;
    while i < table.len()
        invariant
            i <= table.len(),
            crate::format::format_table_wf(table@),
            forall|k: int| 0 <= k < i ==> #[trigger] table@[k].format.drm != drm,
        decreases table.len() - i,
    {
        if table[i].format.drm == drm {
            proof {
                let c = choose|k: int| 0 <= k < table@.len() && #[trigger] table@[k].format.drm == drm;
                assert(table@[i as int].format.drm == drm);
                if c != i {
                    assert(table@[c].format.drm != table@[i as int].format.drm);
                }
            }
            return Some(i);
        }
        i += 1;
    }
    None
}

/// Finds the entry for modifier `m` among `mods`, which hold each modifier
/// once.
fn find_modifier(mods: &Vec<VulkanModifier>, m: Modifier) -> (r: Option<usize>)
    requires
        modifiers_unique(mods@),
    ensures
        r is Some <==> has_modifier(mods@, m),
        r matches Some(i) ==> i < mods@.len() && mods@[i as int]
            == mods@[choose|k: int| 0 <= k < mods@.len() && #[trigger] mods@[k].modifier == m],
{
    let mut i: usize = 0;
    while i < mods.len()
        invariant
            i <= mods.len(),
            modifiers_unique(mods@),
            forall|k: int| 0 <= k < i ==> #[trigger] mods@[k].modifier != m,
        decreases mods.len() - i,
    {
        if mods[i].modifier == m {
            proof {
                let c = choose|k: int| 0 <= k < mods@.len() && #[trigger] mods@[k].modifier == m;
                assert(mods@[i as int].modifier == m);
                if c != i {
                    assert(mods@[c].modifier != mods@[i as int].modifier);
                }
            }
            return Some(i);
        }
        i += 1;
    }
    None
}

/// Each modifier appears once.
pub open spec fn modifiers_unique(mods: Seq<VulkanModifier>) -> bool {
    forall|i: int, j: int| 0 <= i < mods.len() && 0 <= j < mods.len() && i != j
        ==> #[trigger] mods[i].modifier != #[trigger] mods[j].modifier
}

/// The device table is well formed: one entry per format, one entry per
/// modifier of a format.
pub open spec fn device_table_wf(table: Seq<VulkanFormat>) -> bool {
    &&& crate::format::format_table_wf(table)
    &&& forall|i: int| 0 <= i < table.len() ==> modifiers_unique(#[trigger] table[i].modifiers@)
}

fn covers_exec(e: Option<MaxExtents>, width: u32, height: u32) -> (r: bool)
    ensures
        r == covers(e, width as int, height as int),
{
    match e {
        Some(e) => width <= e.width && height <= e.height,
        None => false,
    }
}

/// Checks whether `buf` can be imported as an image of this device, and in
/// which roles.
pub fn validate_dmabuf(table: &Vec<VulkanFormat>, buf: &DmaBuf) -> (r: Result<DmaBufUsage, VulkanError>)
    requires
        device_table_wf(table@),
    ensures
        r == dmabuf_import_result(table@, *buf),
{
    let fi = match find_format(table, buf.format.drm) {
        Some(i) => i,
        None => return Err(VulkanError::FormatNotSupported),
    };
    let f = &table[fi];
    assert(modifiers_unique(f.modifiers@));
    let mi = match find_modifier(&f.modifiers, buf.modifier) {
        Some(i) => i,
        None => return Err(VulkanError::ModifierNotSupported),
    };
    let m = f.modifiers[mi];
    if m.planes != buf.planes.len() {
        return Err(VulkanError::BadPlaneCount);
    }
    if buf.is_disjoint && !m.supports_disjoint {
        return Err(VulkanError::DisjointNotSupported);
    }
    if buf.width <= 0 || buf.height <= 0 {
        return Err(VulkanError::NonPositiveImageSize);
    }
    if m.texture_max_extents.is_none() && m.render_max_extents.is_none() {
        return Err(VulkanError::ModifierUseNotSupported);
    }
    let width = buf.width as u32;
    let height = buf.height as u32;
    let sampled = covers_exec(m.texture_max_extents, width, height);
    let render = covers_exec(m.render_max_extents, width, height);
    if !sampled && !render {
        return Err(VulkanError::ImageTooLarge);
    }
    Ok(DmaBufUsage { sampled, render })
}

/// What creating a shared-memory image of the given geometry yields: its
/// layout, or the first check that fails. `shm` is the largest extent that the
/// format allows for such images, if it allows them at all.
pub open spec fn shm_layout_result(table: Seq<VulkanFormat>, drm: u32, shm: Option<MaxExtents>, width: i32, height: i32, stride: i32, bpp: u32) -> Result<ShmLayout, VulkanError> {
    if width <= 0 || height <= 0 || stride <= 0 {
        Err(VulkanError::NonPositiveImageSize)
    } else if !has_format(table, drm) {
        Err(VulkanError::FormatNotSupported)
    } else if shm is None {
        Err(VulkanError::ShmNotSupported)
    } else if width > shm.unwrap().width || height > shm.unwrap().height {
        Err(VulkanError::ImageTooLarge)
    } else if (stride as int) % (bpp as int) != 0 || (stride as int) < (width as int) * (bpp as int) {
        Err(VulkanError::InvalidStride)
    } else if (stride as int) * (height as int) > i32::MAX {
        Err(VulkanError::ShmOverflow)
    } else {
        Ok(ShmLayout {
            width: width as u32,
            height: height as u32,
            stride: stride as u32,
            size: ((stride as int) * (height as int)) as u64,
        })
    }
}

/// Checks the geometry of a shared-memory image of format `format` against
/// the device table: positive size, a supported format, an extent within the
/// format's bound, and a stride that is a whole number of pixels and holds a
/// row, and a size that fits the `i32` range of the parameters. `shm_max` gives, for each entry of the table, the largest extent of a
/// shared-memory image, if that format allows them.
pub fn shm_layout(table: &Vec<VulkanFormat>, shm_max: &Vec<Option<MaxExtents>>, format: Format, width: i32, height: i32, stride: i32) -> (r: Result<ShmLayout, VulkanError>)
    requires
        crate::format::format_table_wf(table@),
        shm_max@.len() == table@.len(),
        format.bpp > 0,
    ensures
        r == shm_layout_result(table@, format.drm,
            if has_format(table@, format.drm) { shm_max@[choose|i: int| 0 <= i < table@.len() && #[trigger] table@[i].format.drm == format.drm] } else { None },
            width, height, stride, format.bpp),
{
    if width <= 0 || height <= 0 || stride <= 0 {
        return Err(VulkanError::NonPositiveImageSize);
    }
    let fi = match find_format(table, format.drm) {
        Some(i) => i,
        None => return Err(VulkanError::FormatNotSupported),
    };
    proof {
        let c = choose|i: int| 0 <= i < table@.len() && #[trigger] table@[i].format.drm == format.drm;
        if c != fi {
            assert(table@[c].format.drm != table@[fi as int].format.drm);
        }
    }
    let shm = match shm_max[fi] {
        Some(e) => e,
        None => return Err(VulkanError::ShmNotSupported),
    };
    let width = width as u32;
    let height = height as u32;
    let stride = stride as u32;
    if width > shm.width || height > shm.height {
        return Err(VulkanError::ImageTooLarge);
    }
    proof {
        assert((width as int) * (format.bpp as int) <= 0xffff_ffffu64 * 0xffff_ffffu64) by (nonlinear_arith)
            requires width <= 0xffff_ffffu32, format.bpp <= 0xffff_ffffu32;
        assert((stride as int) * (height as int) <= 0xffff_ffffu64 * 0xffff_ffffu64) by (nonlinear_arith)
            requires stride <= 0xffff_ffffu32, height <= 0xffff_ffffu32;
    }
    if stride % format.bpp != 0 || (stride as u64) < (width as u64) * (format.bpp as u64) {
        return Err(VulkanError::InvalidStride);
    }
    let size = (stride as u64) * (height as u64);
    if size > i32::MAX as u64 {
        return Err(VulkanError::ShmOverflow);
    }
    Ok(ShmLayout { width, height, stride, size })
}

impl VulkanImage {
    /// A shared-memory image of exactly this size, stride and format.
    pub open spec fn can_reuse_spec(&self, format: Format, width: i32, height: i32, stride: i32) -> bool {
        self.ty matches VulkanImageMemory::Internal(shm)
            && self.width as i32 == width && self.height as i32 == height
            && shm.stride as i32 == stride && self.format.vk_format == format.vk_format
    }

    /// A new shared-memory image with the given layout; `data`, when not
    /// empty, is queued for upload at the next frame that samples the image.
    pub fn new_shm(id: u64, format: Format, layout: ShmLayout, data: &[u8], for_render: bool) -> (r: VulkanImage)
        ensures
            r.id == id,
            r.width == layout.width,
            r.height == layout.height,
            r.format == format,
            r.has_render_view == for_render,
            r.is_undefined,
            r.ty matches VulkanImageMemory::Internal(shm) && shm.stride == layout.stride && shm.size == layout.size
                && (if data@.len() == 0 { shm.to_flush is None } else { shm.to_flush matches Some(d) && d@ == data@ }),
    {
        let to_flush = if data.len() == 0 {
            None
        } else {
            Some(vstd::slice::slice_to_vec(data))
        };
        VulkanImage {
            id,
            width: layout.width,
            height: layout.height,
            format,
            has_render_view: for_render,
            is_undefined: true,
            ty: VulkanImageMemory::Internal(ShmMemory { stride: layout.stride, size: layout.size, to_flush }),
        }
    }

    /// A new image over an imported dma-buf that passed `validate_dmabuf`
    /// with `usage`. It gets a render view when it can be rendered into.
    pub fn new_dmabuf(id: u64, buf: DmaBuf, usage: DmaBufUsage) -> (r: VulkanImage)
        requires
            buf.width > 0,
            buf.height > 0,
        ensures
            r.id == id,
            r.width == buf.width as u32,
            r.height == buf.height as u32,
            r.format == buf.format,
            r.has_render_view == usage.render,
            r.is_undefined,
            r.ty == VulkanImageMemory::DmaBuf(buf),
    {
        VulkanImage {
            id,
            width: buf.width as u32,
            height: buf.height as u32,
            format: buf.format,
            has_render_view: usage.render,
            is_undefined: true,
            ty: VulkanImageMemory::DmaBuf(buf),
        }
    }

    /// Whether this shared-memory image can take an upload of the given
    /// geometry in place, rather than being replaced by a new image.
    pub fn can_reuse(&self, format: Format, width: i32, height: i32, stride: i32) -> (r: bool)
        ensures
            r == self.can_reuse_spec(format, width, height, stride),
    {
        match &self.ty {
            VulkanImageMemory::DmaBuf(_) => false,
            VulkanImageMemory::Internal(shm) => {
                self.width as i32 == width && self.height as i32 == height && shm.stride as i32 == stride
                    && self.format.vk_format == format.vk_format
            },
        }
    }

    /// Queues `data` for upload to this shared-memory image at the next frame
    /// that samples it.
    pub fn upload(&mut self, data: &[u8])
        requires
            old(self).ty is Internal,
        ensures
            final(self).id == old(self).id,
            final(self).width == old(self).width,
            final(self).height == old(self).height,
            final(self).format == old(self).format,
            final(self).has_render_view == old(self).has_render_view,
            final(self).is_undefined == old(self).is_undefined,
            final(self).ty is Internal,
            final(self).ty->Internal_0.stride == old(self).ty->Internal_0.stride,
            final(self).ty->Internal_0.size == old(self).ty->Internal_0.size,
            final(self).ty->Internal_0.to_flush is Some,
            final(self).ty->Internal_0.to_flush->Some_0@ == data@,
    {
        match &mut self.ty {
            VulkanImageMemory::DmaBuf(_) => {},
            VulkanImageMemory::Internal(shm) => {
                shm.to_flush = Some(vstd::slice::slice_to_vec(data));
            },
        }
    }

    /// Takes an upload of the given geometry in place when this image is a
    /// shared-memory image of the same size, stride and format; returns
    /// whether it did. Otherwise the image stays as it is and the caller
    /// creates a new one.
    pub fn try_reuse(&mut self, data: &[u8], format: Format, width: i32, height: i32, stride: i32) -> (r: bool)
        ensures
            r == old(self).can_reuse_spec(format, width, height, stride),
            r ==> final(self).ty is Internal
                && final(self).ty->Internal_0.to_flush is Some
                && final(self).ty->Internal_0.to_flush->Some_0@ == data@
                && final(self).ty->Internal_0.stride == old(self).ty->Internal_0.stride
                && final(self).ty->Internal_0.size == old(self).ty->Internal_0.size
                && final(self).id == old(self).id
                && final(self).is_undefined == old(self).is_undefined,
            !r ==> *final(self) == *old(self),
    {
        if self.can_reuse(format, width, height, stride) {
            self.upload(data);
            true
        } else {
            false
        }
    }

    /// Whether this image has an upload that the next frame must copy to the
    /// GPU.
    pub fn needs_flush(&self) -> (r: bool)
        ensures
            r == (self.ty matches VulkanImageMemory::Internal(shm) && shm.to_flush is Some),
    {
        match &self.ty {
            VulkanImageMemory::DmaBuf(_) => false,
            VulkanImageMemory::Internal(shm) => shm.to_flush.is_some(),
        }
    }
}

} // verus!
