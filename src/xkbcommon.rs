use vstd::prelude::*;

verus! {

/// Errors of the keymap library.
#[derive(Debug, Clone, Copy, PartialEq, Eq, Structural)]
pub enum XkbCommonError {
    CreateContext,
    CreateState,
    KeymapFromBuffer,
    AsStr,
}

/// The serialized modifier state of a keyboard.
#[derive(Debug, Clone, Copy, PartialEq, Eq, Structural)]
pub struct ModifierState {
    pub mods_depressed: u32,
    pub mods_latched: u32,
    pub mods_locked: u32,
    pub mods_effective: u32,
    pub group: u32,
}

impl ModifierState {
    /// The state of a keyboard with no modifier active, in group zero.
    pub fn new() -> (r: Self)
        ensures
            r == (ModifierState { mods_depressed: 0, mods_latched: 0, mods_locked: 0, mods_effective: 0, group: 0 }),
    {
        ModifierState { mods_depressed: 0, mods_latched: 0, mods_locked: 0, mods_effective: 0, group: 0 }
    }

    /// The state made of the serialized components; the effective modifiers
    /// are those depressed, latched or locked.
    pub fn from_components(mods_depressed: u32, mods_latched: u32, mods_locked: u32, group: u32) -> (r: Self)
        ensures
            r.mods_depressed == mods_depressed,
            r.mods_latched == mods_latched,
            r.mods_locked == mods_locked,
            r.mods_effective == mods_depressed | mods_latched | mods_locked,
            r.group == group,
    {
        ModifierState {
            mods_depressed,
            mods_latched,
            mods_locked,
            mods_effective: mods_depressed | mods_latched | mods_locked,
            group,
        }
    }
}

} // verus!
