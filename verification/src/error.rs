//! Error taxonomy of the protocol layer.

use vstd::prelude::*;

verus! {

/// A failure while encoding a request frame or decoding a response frame.
///
/// Transport failures (the HID write or read itself failing) never arise in
/// this library: it performs no I/O. The unverified shell reports those with
/// its own error type.
#[derive(Debug, Clone, Copy, PartialEq, Eq, Structural)]
pub enum ProtoError {
    /// A request payload does not fit in the 4 payload bytes of a frame.
    PayloadTooLong,
    /// A response header byte differs from what the protocol demands.
    HeaderMismatch,
    /// A response declares more payload bytes than the frame can carry.
    LengthOutOfRange,
    /// A response payload ends before a field is complete.
    UnexpectedEof,
    /// A ping response carries a byte other than the pong marker.
    InvalidPingAck,
}

} // verus!
