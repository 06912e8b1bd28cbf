use vstd::prelude::*;

use crate::format::GfxFormat;
use crate::renderer::PendingFrame;
use crate::state::ZwpIdleInhibitorV1;
use ahash::AHashMap;

verus! {

#[verifier::external_type_specification]
#[verifier::external_body]
#[verifier::reject_recursive_types(K)]
#[verifier::reject_recursive_types(V)]
#[verifier::reject_recursive_types(S)]
pub struct ExAHashMap<K, V, S>(AHashMap<K, V, S>);

#[verifier::external_type_specification]
#[verifier::external_body]
pub struct ExAHashRandomState(ahash::RandomState);

/// The advertised-format table, keyed by DRM FourCC.
pub type FormatMap = AHashMap<u32, GfxFormat>;

/// The entries of an advertised-format table.
pub uninterp spec fn format_table(m: FormatMap) -> Map<u32, GfxFormat>;

/// Relies on ahash::AHashMap::new: the new map holds no entry.
#[verifier::external_body]
pub(crate) fn new_format_map() -> (r: FormatMap)
    ensures
        format_table(r).dom() == Set::<u32>::empty(),
{
    AHashMap::new()
}

/// Relies on ahash::AHashMap::insert: the key maps to the value afterwards,
/// every other entry stays.
#[verifier::external_body]
pub(crate) fn insert_format(m: &mut FormatMap, k: u32, v: GfxFormat)
    ensures
        format_table(*final(m)) == format_table(*old(m)).insert(k, v),
{
    m.insert(k, v);
}

/// The frames in flight, keyed by submission point.
pub type FrameMap = AHashMap<u64, PendingFrame>;

/// The entries of a table of frames in flight.
pub uninterp spec fn frame_table(m: FrameMap) -> Map<u64, PendingFrame>;

/// Relies on ahash::AHashMap::new: the new map holds no entry.
#[verifier::external_body]
pub(crate) fn new_frame_map() -> (r: FrameMap)
    ensures
        frame_table(r).dom() == Set::<u64>::empty(),
{
    AHashMap::new()
}

/// Relies on ahash::AHashMap::insert: the key maps to the value afterwards,
/// every other entry stays.
#[verifier::external_body]
pub(crate) fn insert_frame(m: &mut FrameMap, k: u64, v: PendingFrame)
    ensures
        frame_table(*final(m)) == frame_table(*old(m)).insert(k, v),
{
    m.insert(k, v);
}

/// Relies on ahash::AHashMap::remove: the entry of the key leaves the map and
/// is returned, if there was one.
#[verifier::external_body]
pub(crate) fn remove_frame(m: &mut FrameMap, k: u64) -> (r: Option<PendingFrame>)
    ensures
        frame_table(*final(m)) == frame_table(*old(m)).remove(k),
        r is Some <==> frame_table(*old(m)).contains_key(k),
        r matches Some(f) ==> f == frame_table(*old(m))[k],
{
    m.remove(&k)
}

/// Relies on HashMap::len, reached through AHashMap's Deref: the number of
/// entries.
#[verifier::external_body]
pub(crate) fn frame_count(m: &FrameMap) -> (r: usize)
    ensures
        r as nat == frame_table(*m).len(),
{
    m.len()
}

/// Relies on HashMap::contains_key, reached through AHashMap's Deref: whether
/// the key has an entry.
#[verifier::external_body]
pub(crate) fn has_frame(m: &FrameMap, k: u64) -> (r: bool)
    ensures
        r == frame_table(*m).contains_key(k),
{
    m.contains_key(&k)
}

/// The active idle inhibitors, keyed by inhibitor id.
pub type InhibitorMap = AHashMap<u64, ZwpIdleInhibitorV1>;

/// The entries of a table of idle inhibitors.
pub uninterp spec fn inhibitor_table(m: InhibitorMap) -> Map<u64, ZwpIdleInhibitorV1>;

/// Relies on ahash::AHashMap::new: the new map holds no entry.
#[verifier::external_body]
pub(crate) fn new_inhibitor_map() -> (r: InhibitorMap)
    ensures
        inhibitor_table(r).dom() == Set::<u64>::empty(),
{
    AHashMap::new()
}

/// Relies on ahash::AHashMap::insert: the key maps to the value afterwards,
/// every other entry stays.
#[verifier::external_body]
pub(crate) fn insert_inhibitor(m: &mut InhibitorMap, k: u64, v: ZwpIdleInhibitorV1)
    ensures
        inhibitor_table(*final(m)) == inhibitor_table(*old(m)).insert(k, v),
{
    m.insert(k, v);
}

/// Relies on ahash::AHashMap::remove: the entry of the key leaves the map.
#[verifier::external_body]
pub(crate) fn remove_inhibitor(m: &mut InhibitorMap, k: u64)
    ensures
        inhibitor_table(*final(m)) == inhibitor_table(*old(m)).remove(k),
{
    m.remove(&k);
}

} // verus!
