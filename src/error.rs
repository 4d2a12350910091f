//! Errors of the control channel codecs.
use vstd::prelude::*;

verus! {

/// What went wrong while decoding the control channel.
#[derive(Clone, Copy, Debug, PartialEq, Eq, Structural)]
pub enum CodecError {
    /// A frame header declared a payload longer than the frame limit; the stream cannot be
    /// trusted any further.
    FrameTooLong,
    /// A frame was asked for as one packet type but carries another.
    UnexpectedPacketType { expected: u16, found: u16 },
    /// A tunnelled voice packet was addressed to the other side of the connection.
    WrongVoiceDirection,
    /// A tunnelled voice packet is truncated or has an unknown kind.
    MalformedVoicePacket,
}

} // verus!
