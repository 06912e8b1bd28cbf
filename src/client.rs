use vstd::prelude::*;

verus! {

/// The id of a connected client.
#[derive(Debug, Clone, Copy, PartialEq, Eq, Structural)]
pub struct ClientId(pub u64);

/// A wire `fixed` value: a signed 24.8 fixed-point number.
#[derive(Debug, Clone, Copy, PartialEq, Eq, Structural)]
pub struct Fixed(pub i32);

/// Why a request could not be decoded.
#[derive(Debug, Clone, Copy, PartialEq, Eq, Structural)]
pub enum MsgParserError {
    UnexpectedEof,
    TrailingData,
}

/// Why a client-side object could not be used.
#[derive(Debug, Clone, Copy, PartialEq, Eq, Structural)]
pub enum ClientError {
    UnknownId(u32),
    WrongType(u32),
}

/// Why a seat refused a request.
#[derive(Debug, Clone, Copy, PartialEq, Eq, Structural)]
pub enum WlSeatError {
    NotFocused,
}

} // verus!
