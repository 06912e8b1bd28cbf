use vstd::prelude::*;

use crate::error::VulkanError;
use crate::maps::{format_table, insert_format, new_format_map, FormatMap};

verus! {

/// DRM FourCC of the XRGB8888 format (`XR24`).
pub const XRGB8888_DRM: u32 = 0x34325258;

/// DRM FourCC of the ARGB8888 format (`AR24`).
pub const ARGB8888_DRM: u32 = 0x34325241;

/// A DRM format modifier.
pub type Modifier = u64;

/// The modifier that stands for "no explicit modifier".
pub const INVALID_MODIFIER: Modifier = 0x00ff_ffff_ffff_ffff;

/// A pixel format: its DRM FourCC, the raw `VkFormat` it maps to and its size
/// in bytes per pixel.
#[derive(Debug, Clone, Copy, PartialEq, Eq, Structural)]
pub struct Format {
    pub drm: u32,
    pub vk_format: i32,
    pub bpp: u32,
    pub has_alpha: bool,
}

/// A format together with a modifier.
#[derive(Debug, Clone, Copy, PartialEq, Eq)]
pub struct ModifiedFormat {
    pub format: Format,
    pub modifier: Modifier,
}

/// The largest image extent that the device accepts for one use.
#[derive(Debug, Clone, Copy, PartialEq, Eq)]
pub struct MaxExtents {
    pub width: u32,
    pub height: u32,
}

/// What the device supports for one (format, modifier) pair. A missing extent
/// bound means that the pair cannot be used in that role.
#[derive(Debug, Clone, Copy, PartialEq, Eq)]
pub struct VulkanModifier {
    pub modifier: Modifier,
    pub planes: usize,
    pub texture_max_extents: Option<MaxExtents>,
    pub render_max_extents: Option<MaxExtents>,
    pub supports_disjoint: bool,
}

/// A format as enumerated on the device, with its usable modifiers.
#[derive(Debug, Clone)]
pub struct VulkanFormat {
    pub format: Format,
    pub modifiers: Vec<VulkanModifier>,
}

/// A format as advertised to the compositor: the modifiers that can be read
/// from (sampled) and those that can be written to (rendered into).
#[derive(Debug, Clone)]
pub struct GfxFormat {
    pub format: Format,
    pub read_modifiers: Vec<Modifier>,
    pub write_modifiers: Vec<Modifier>,
}

/// The modifiers among `mods` that have a texture extent bound, in order.
pub open spec fn read_modifiers_of(mods: Seq<VulkanModifier>) -> Seq<Modifier>
    decreases mods.len(),
{
    if mods.len() == 0 {
        Seq::empty()
    } else {
        let rest = read_modifiers_of(mods.drop_last());
        if mods.last().texture_max_extents is Some {
            rest.push(mods.last().modifier)
        } else {
            rest
        }
    }
}

/// The modifiers among `mods` that have a render extent bound, in order.
pub open spec fn write_modifiers_of(mods: Seq<VulkanModifier>) -> Seq<Modifier>
    decreases mods.len(),
{
    if mods.len() == 0 {
        Seq::empty()
    } else {
        let rest = write_modifiers_of(mods.drop_last());
        if mods.last().render_max_extents is Some {
            rest.push(mods.last().modifier)
        } else {
            rest
        }
    }
}

/// Some modifier of `mods` carries `m` and a texture extent bound.
pub open spec fn has_texture_modifier(mods: Seq<VulkanModifier>, m: Modifier) -> bool {
    exists|i: int| 0 <= i < mods.len() && #[trigger] mods[i].modifier == m && mods[i].texture_max_extents is Some
}

/// Some modifier of `mods` carries `m` and a render extent bound.
pub open spec fn has_render_modifier(mods: Seq<VulkanModifier>, m: Modifier) -> bool {
    exists|i: int| 0 <= i < mods.len() && #[trigger] mods[i].modifier == m && mods[i].render_max_extents is Some
}

/// The device's format table holds each DRM format once.
pub open spec fn format_table_wf(table: Seq<VulkanFormat>) -> bool {
    forall|i: int, j: int| 0 <= i < table.len() && 0 <= j < table.len() && i != j
        ==> #[trigger] table[i].format.drm != #[trigger] table[j].format.drm
}

/// The advertised form of `f`.
pub open spec fn advertised(f: VulkanFormat, g: GfxFormat) -> bool {
    &&& g.format == f.format
    &&& g.read_modifiers@ == read_modifiers_of(f.modifiers@)
    &&& g.write_modifiers@ == write_modifiers_of(f.modifiers@)
}

/// The table advertised to the compositor for the device formats `table`.
pub open spec fn advertises(table: Seq<VulkanFormat>, m: Map<u32, GfxFormat>) -> bool {
    &&& m.dom() == Set::new(|drm: u32| exists|i: int| 0 <= i < table.len() && #[trigger] table[i].format.drm == drm)
    &&& forall|i: int| 0 <= i < table.len() ==> m.contains_key(#[trigger] table[i].format.drm)
        && advertised(table[i], m[table[i].format.drm])
}

/// The device can both sample from and render into XRGB8888.
pub open spec fn supports_xrgb8888(table: Seq<VulkanFormat>) -> bool {
    exists|i: int| 0 <= i < table.len() && #[trigger] table[i].format.drm == XRGB8888_DRM
        && (exists|m: Modifier| has_texture_modifier(table[i].modifiers@, m))
        && (exists|m: Modifier| has_render_modifier(table[i].modifiers@, m))
}

/// Membership in the read list is exactly the presence of a texture bound.
pub proof fn lemma_read_modifiers(mods: Seq<VulkanModifier>, m: Modifier)
    ensures
        read_modifiers_of(mods).contains(m) <==> has_texture_modifier(mods, m),
    decreases mods.len(),
{
    if mods.len() > 0 {
        let init = mods.drop_last();
        let rest = read_modifiers_of(init);
        let last = mods.last();
        lemma_read_modifiers(init, m);
        assert forall|j: int| 0 <= j < init.len() implies #[trigger] init[j] == mods[j] by {}
        if last.texture_max_extents is Some {
            let full = rest.push(last.modifier);
            if rest.contains(m) {
                let j = choose|j: int| 0 <= j < rest.len() && rest[j] == m;
                assert(full[j] == m);
            }
            if last.modifier == m {
                assert(full[rest.len() as int] == m);
            }
            if full.contains(m) {
                let j = choose|j: int| 0 <= j < full.len() && full[j] == m;
                if j < rest.len() {
                    assert(rest[j] == m);
                }
            }
        }
        if has_texture_modifier(mods, m) {
            let i = choose|i: int| 0 <= i < mods.len() && #[trigger] mods[i].modifier == m && mods[i].texture_max_extents is Some;
            if i < init.len() {
                assert(init[i] == mods[i]);
            }
        }
        if has_texture_modifier(init, m) {
            let i = choose|i: int| 0 <= i < init.len() && #[trigger] init[i].modifier == m && init[i].texture_max_extents is Some;
            assert(mods[i] == init[i]);
        }
        if last.modifier == m && last.texture_max_extents is Some {
            assert(mods[mods.len() - 1] == last);
        }
    }
}

/// Membership in the write list is exactly the presence of a render bound.
pub proof fn lemma_write_modifiers(mods: Seq<VulkanModifier>, m: Modifier)
    ensures
        write_modifiers_of(mods).contains(m) <==> has_render_modifier(mods, m),
    decreases mods.len(),
{
    if mods.len() > 0 {
        let init = mods.drop_last();
        let rest = write_modifiers_of(init);
        let last = mods.last();
        lemma_write_modifiers(init, m);
        assert forall|j: int| 0 <= j < init.len() implies #[trigger] init[j] == mods[j] by {}
        if last.render_max_extents is Some {
            let full = rest.push(last.modifier);
            if rest.contains(m) {
                let j = choose|j: int| 0 <= j < rest.len() && rest[j] == m;
                assert(full[j] == m);
            }
            if last.modifier == m {
                assert(full[rest.len() as int] == m);
            }
            if full.contains(m) {
                let j = choose|j: int| 0 <= j < full.len() && full[j] == m;
                if j < rest.len() {
                    assert(rest[j] == m);
                }
            }
        }
        if has_render_modifier(mods, m) {
            let i = choose|i: int| 0 <= i < mods.len() && #[trigger] mods[i].modifier == m && mods[i].render_max_extents is Some;
            if i < init.len() {
                assert(init[i] == mods[i]);
            }
        }
        if has_render_modifier(init, m) {
            let i = choose|i: int| 0 <= i < init.len() && #[trigger] init[i].modifier == m && init[i].render_max_extents is Some;
            assert(mods[i] == init[i]);
        }
        if last.modifier == m && last.render_max_extents is Some {
            assert(mods[mods.len() - 1] == last);
        }
    }
}

/// The modifiers of `mods` that can be sampled from.
pub fn read_modifiers(mods: &Vec<VulkanModifier>) -> (r: Vec<Modifier>)
    ensures
        r@ == read_modifiers_of(mods@),
{
    let mut r: Vec<Modifier> = Vec::new();
    let mut i: usize = 0;
    while i < mods.len()
        invariant
            i <= mods.len(),
            r@ == read_modifiers_of(mods@.subrange(0, i as int)),
        decreases mods.len() - i,
    {
        assert(mods@.subrange(0, i + 1).drop_last() =~= mods@.subrange(0, i as int));
        if mods[i].texture_max_extents.is_some() {
            r.push(mods[i].modifier);
        }
        i += 1;
    }
    assert(mods@.subrange(0, mods.len() as int) =~= mods@);
    r
}

/// The modifiers of `mods` that can be rendered into.
pub fn write_modifiers(mods: &Vec<VulkanModifier>) -> (r: Vec<Modifier>)
    ensures
        r@ == write_modifiers_of(mods@),
{
    let mut r: Vec<Modifier> = Vec::new();
    let mut i: usize = 0;
    while i < mods.len()
        invariant
            i <= mods.len(),
            r@ == write_modifiers_of(mods@.subrange(0, i as int)),
        decreases mods.len() - i,
    {
        assert(mods@.subrange(0, i + 1).drop_last() =~= mods@.subrange(0, i as int));
        if mods[i].render_max_extents.is_some() {
            r.push(mods[i].modifier);
        }
        i += 1;
    }
    assert(mods@.subrange(0, mods.len() as int) =~= mods@);
    r
}

/// The advertised form of one device format.
pub fn gfx_format(f: &VulkanFormat) -> (r: GfxFormat)
    ensures
        advertised(*f, r),
{
    GfxFormat {
        format: f.format,
        read_modifiers: read_modifiers(&f.modifiers),
        write_modifiers: write_modifiers(&f.modifiers),
    }
}

/// Builds the table of formats that the renderer advertises, keyed by DRM
/// FourCC.
pub fn advertise_formats(table: &Vec<VulkanFormat>) -> (r: FormatMap)
    requires
        format_table_wf(table@),
    ensures
        advertises(table@, format_table(r)),
{
    let mut r = new_format_map();
    let mut i: usize = 0;
    assert(format_table(r).dom() =~= Set::new(|drm: u32| exists|j: int| 0 <= j < table@.subrange(0, 0).len() && #[trigger] table@.subrange(0, 0)[j].format.drm == drm));
    while i < table.len()
        invariant
            i <= table.len(),
            format_table_wf(table@),
            advertises(table@.subrange(0, i as int), format_table(r)),
        decreases table.len() - i,
    {
        let ghost old_map = format_table(r);
        let ghost prefix = table@.subrange(0, i as int);
        let ghost next = table@.subrange(0, i + 1);
        let g = gfx_format(&table[i]);
        insert_format(&mut r, table[i].format.drm, g);
        assert forall|j: int| 0 <= j < next.len() implies format_table(r).contains_key(#[trigger] next[j].format.drm)
            && advertised(next[j], format_table(r)[next[j].format.drm]) by {
            if j < i {
                assert(next[j] == prefix[j]);
                assert(table@[j].format.drm != table@[i as int].format.drm);
            }
        }
        assert forall|drm: u32| format_table(r).dom().contains(drm) <==>
            (exists|j: int| 0 <= j < next.len() && #[trigger] next[j].format.drm == drm) by {
            if format_table(r).dom().contains(drm) && drm != table@[i as int].format.drm {
                assert(old_map.dom().contains(drm));
                let j = choose|j: int| 0 <= j < prefix.len() && #[trigger] prefix[j].format.drm == drm;
                assert(next[j] == prefix[j]);
            }
            if drm == table@[i as int].format.drm {
                assert(next[i as int].format.drm == drm);
            }
            if exists|j: int| 0 <= j < next.len() && #[trigger] next[j].format.drm == drm {
                let j = choose|j: int| 0 <= j < next.len() && #[trigger] next[j].format.drm == drm;
                if j < i {
                    assert(prefix[j].format.drm == drm);
                }
            }
        }
        assert(format_table(r).dom() =~= Set::new(|drm: u32| exists|j: int| 0 <= j < next.len() && #[trigger] next[j].format.drm == drm));
        i += 1;
    }
    assert(table@.subrange(0, table.len() as int) =~= table@);
    r
}

/// Checks that the device can both sample from and render into XRGB8888,
/// which the renderer cannot do without.
pub fn check_xrgb8888(table: &Vec<VulkanFormat>) -> (r: Result<(), VulkanError>)
    ensures
        r is Ok <==> supports_xrgb8888(table@),
        r matches Err(e) ==> e == VulkanError::XRGB8888,
{
    let mut i: usize = 0;
    while i < table.len()
        invariant
            i <= table.len(),
            forall|k: int| 0 <= k < i ==> !(#[trigger] table@[k].format.drm == XRGB8888_DRM
                && (exists|m: Modifier| has_texture_modifier(table@[k].modifiers@, m))
                && (exists|m: Modifier| has_render_modifier(table@[k].modifiers@, m))),
        decreases table.len() - i,
    {
        if table[i].format.drm == XRGB8888_DRM {
            let mods = &table[i].modifiers;
            let mut tex = false;
            let mut ren = false;
            let mut j: usize = 0;
            while j < mods.len()
                invariant
                    j <= mods.len(),
                    tex <==> exists|k: int| 0 <= k < j && (#[trigger] mods@[k]).texture_max_extents is Some,
                    ren <==> exists|k: int| 0 <= k < j && (#[trigger] mods@[k]).render_max_extents is Some,
                decreases mods.len() - j,
            {
                if mods[j].texture_max_extents.is_some() {
                    tex = true;
                }
                if mods[j].render_max_extents.is_some() {
                    ren = true;
                }
                j += 1;
            }
            if tex && ren {
                proof {
                    let a = choose|k: int| 0 <= k < mods.len() && (#[trigger] mods@[k]).texture_max_extents is Some;
                    let b = choose|k: int| 0 <= k < mods.len() && (#[trigger] mods@[k]).render_max_extents is Some;
                    assert(has_texture_modifier(mods@, mods@[a].modifier));
                    assert(has_render_modifier(mods@, mods@[b].modifier));
                    assert(table@[i as int].format.drm == XRGB8888_DRM);
                }
                return Ok(());
            }
            proof {
                if exists|m: Modifier| has_texture_modifier(mods@, m) {
                    let m = choose|m: Modifier| has_texture_modifier(mods@, m);
                    let k = choose|k: int| 0 <= k < mods.len() && #[trigger] mods@[k].modifier == m && mods@[k].texture_max_extents is Some;
                    assert(mods@[k].texture_max_extents is Some);
                }
                if exists|m: Modifier| has_render_modifier(mods@, m) {
                    let m = choose|m: Modifier| has_render_modifier(mods@, m);
                    let k = choose|k: int| 0 <= k < mods.len() && #[trigger] mods@[k].modifier == m && mods@[k].render_max_extents is Some;
                    assert(mods@[k].render_max_extents is Some);
                }
            }
        }
        i += 1;
    }
    Err(VulkanError::XRGB8888)
}

/// The advertised table offers a modifier for reading exactly when the
/// device reports a texture extent bound for it, and for writing exactly when
/// it reports a render extent bound; a device that passed the XRGB8888 check
/// advertises XRGB8888 with at least one modifier in each role.
pub proof fn lemma_format_advertisement(table: Seq<VulkanFormat>, adv: Map<u32, GfxFormat>, i: int, m: Modifier)
    requires
        advertises(table, adv),
        0 <= i < table.len(),
    ensures
        adv[table[i].format.drm].read_modifiers@.contains(m) <==> has_texture_modifier(table[i].modifiers@, m),
        adv[table[i].format.drm].write_modifiers@.contains(m) <==> has_render_modifier(table[i].modifiers@, m),
        supports_xrgb8888(table) ==> adv.contains_key(XRGB8888_DRM)
            && adv[XRGB8888_DRM].read_modifiers@.len() > 0
            && adv[XRGB8888_DRM].write_modifiers@.len() > 0,
{
    lemma_read_modifiers(table[i].modifiers@, m);
    lemma_write_modifiers(table[i].modifiers@, m);
    if supports_xrgb8888(table) {
        let k = choose|k: int| 0 <= k < table.len() && #[trigger] table[k].format.drm == XRGB8888_DRM
            && (exists|m: Modifier| has_texture_modifier(table[k].modifiers@, m))
            && (exists|m: Modifier| has_render_modifier(table[k].modifiers@, m));
        let a = choose|m: Modifier| has_texture_modifier(table[k].modifiers@, m);
        let b = choose|m: Modifier| has_render_modifier(table[k].modifiers@, m);
        lemma_read_modifiers(table[k].modifiers@, a);
        lemma_write_modifiers(table[k].modifiers@, b);
        assert(adv[XRGB8888_DRM].read_modifiers@.contains(a));
        assert(adv[XRGB8888_DRM].write_modifiers@.contains(b));
    }
}

} // verus!
