use vstd::prelude::*;

verus! {

/// The first version of the message that starts a configuration session.
#[derive(Debug, Clone, Copy, PartialEq, Eq, Structural)]
pub struct V1InitMessage {}

/// The message that starts a configuration session.
#[derive(Debug, Clone, Copy, PartialEq, Eq, Structural)]
pub enum InitMessage {
    V1(V1InitMessage),
}

} // verus!
