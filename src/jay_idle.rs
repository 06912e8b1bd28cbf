use vstd::prelude::*;

use crate::client::{ClientError, ClientId, MsgParserError};
use crate::state::{IdleState, Timeout};

verus! {

/// The protocol id of a `jay_idle`.
#[derive(Debug, Clone, Copy, PartialEq, Eq, Structural)]
pub struct JayIdleId(pub u32);

/// A client's `jay_idle` object, through which it reads and sets the idle
/// interval.
#[derive(Debug, Clone, Copy, PartialEq, Eq, Structural)]
pub struct JayIdle {
    pub id: JayIdleId,
    pub client: ClientId,
}

/// The events of a `jay_idle`.
#[derive(Debug, Clone, Copy, PartialEq, Eq, Structural)]
pub enum JayIdleEvent {
    Interval { self_id: JayIdleId, interval: u64 },
}

/// Errors of a `jay_idle`.
#[derive(Debug, Clone, Copy, PartialEq, Eq, Structural)]
pub enum JayIdleError {
    MsgParserError(MsgParserError),
    ClientError(ClientError),
}

impl JayIdle {
    /// Reports the idle interval in whole seconds.
    pub fn send_interval(&self, idle: &IdleState) -> (r: JayIdleEvent)
        ensures
            r == (JayIdleEvent::Interval { self_id: self.id, interval: idle.timeout.secs }),
    {
        JayIdleEvent::Interval { self_id: self.id, interval: idle.timeout.secs }
    }

    /// Answers a `get_status` request with the current interval.
    pub fn get_status(&self, idle: &IdleState) -> (r: JayIdleEvent)
        ensures
            r == (JayIdleEvent::Interval { self_id: self.id, interval: idle.timeout.secs }),
    {
        self.send_interval(idle)
    }

    /// Answers a `set_interval` request: the idle timeout becomes `interval`
    /// whole seconds.
    pub fn set_interval(&self, interval: u64, idle: &mut IdleState)
        ensures
            final(idle).timeout == (Timeout { secs: interval, nanos: 0 }),
            final(idle).timeout_changed,
            final(idle).change,
            final(idle).input == old(idle).input,
            final(idle).inhibitors == old(idle).inhibitors,
            final(idle).inhibitors_changed == old(idle).inhibitors_changed,
    {
        idle.set_timeout(Timeout { secs: interval, nanos: 0 });
    }
}

} // verus!
