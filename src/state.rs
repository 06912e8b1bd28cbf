use vstd::prelude::*;

use crate::client::ClientId;
use crate::maps::{inhibitor_table, insert_inhibitor, new_inhibitor_map, remove_inhibitor, InhibitorMap};

verus! {

/// A span of time: whole seconds and the nanoseconds beyond them.
#[derive(Debug, Clone, Copy, PartialEq, Eq, Structural)]
pub struct Timeout {
    pub secs: u64,
    pub nanos: u32,
}

/// An idle inhibitor created by a client for one of its surfaces.
#[derive(Debug, Clone, Copy, PartialEq, Eq, Structural)]
pub struct ZwpIdleInhibitorV1 {
    pub inhibit_id: u64,
    pub id: u32,
    pub client: ClientId,
    pub surface: u32,
}

/// The compositor's idle tracking: whether input happened, the idle
/// timeout, the active inhibitors, which of these changed, and whether the
/// idle handler has a wake-up pending (`change`).
#[derive(Debug)]
pub struct IdleState {
    pub input: bool,
    pub change: bool,
    pub timeout: Timeout,
    pub timeout_changed: bool,
    pub inhibitors: InhibitorMap,
    pub inhibitors_changed: bool,
}

impl IdleState {
    /// Idle tracking with the given timeout, no inhibitor and nothing changed.
    pub fn new(timeout: Timeout) -> (r: Self)
        ensures
            !r.input,
            !r.change,
            r.timeout == timeout,
            !r.timeout_changed,
            inhibitor_table(r.inhibitors).dom() == Set::<u64>::empty(),
            !r.inhibitors_changed,
    {
        IdleState {
            input: false,
            change: false,
            timeout,
            timeout_changed: false,
            inhibitors: new_inhibitor_map(),
            inhibitors_changed: false,
        }
    }

    /// Sets the idle timeout and wakes the idle handler.
    pub fn set_timeout(&mut self, timeout: Timeout)
        ensures
            final(self).timeout == timeout,
            final(self).timeout_changed,
            final(self).change,
            final(self).input == old(self).input,
            final(self).inhibitors == old(self).inhibitors,
            final(self).inhibitors_changed == old(self).inhibitors_changed,
    {
        self.timeout = timeout;
        self.timeout_changed = true;
        self.change = true;
    }

    /// Registers an inhibitor under its inhibitor id and wakes the idle
    /// handler.
    pub fn add_inhibitor(&mut self, inhibitor: &ZwpIdleInhibitorV1)
        ensures
            inhibitor_table(final(self).inhibitors) == inhibitor_table(old(self).inhibitors).insert(inhibitor.inhibit_id, *inhibitor),
            final(self).inhibitors_changed,
            final(self).change,
            final(self).input == old(self).input,
            final(self).timeout == old(self).timeout,
            final(self).timeout_changed == old(self).timeout_changed,
    {
        insert_inhibitor(&mut self.inhibitors, inhibitor.inhibit_id, *inhibitor);
        self.inhibitors_changed = true;
        self.change = true;
    }

    /// Drops an inhibitor and wakes the idle handler.
    pub fn remove_inhibitor(&mut self, inhibitor: &ZwpIdleInhibitorV1)
        ensures
            inhibitor_table(final(self).inhibitors) == inhibitor_table(old(self).inhibitors).remove(inhibitor.inhibit_id),
            final(self).inhibitors_changed,
            final(self).change,
            final(self).input == old(self).input,
            final(self).timeout == old(self).timeout,
            final(self).timeout_changed == old(self).timeout_changed,
    {
        remove_inhibitor(&mut self.inhibitors, inhibitor.inhibit_id);
        self.inhibitors_changed = true;
        self.change = true;
    }
}

} // verus!
