use vstd::prelude::*;

verus! {

/// Why a demo, or a part of one, could not be decoded.
#[derive(Debug, Clone, Copy, PartialEq, Eq, Structural)]
pub enum DemError {
    /// The bit stream ended before a value was complete.
    Eof,
    /// A capped string had no terminating zero byte within its capacity.
    StringTooLong,
    /// A byte string that must be UTF-8 was not.
    InvalidUtf8,
    /// The header stamp is not `HL2DEMO\0`.
    InvalidSignature,
    /// A frame carried a message type that the format does not know.
    InvalidFrameType(i8),
    /// A packet carried a net/svc message type that is not decoded.
    UnknownNetSvcMessage(u8),
    /// A sign-on state byte is out of range.
    NoSuchSignOnState(u8),
}

/// The failure of a decoding step: an error the decoder reports, or an input on
/// which the decoding rules have no answer (an arithmetic overflow, a zero
/// logarithm, a capacity overrun).  Decoding functions reach `Abort` only on
/// such inputs, and the public entry points exclude them.
#[derive(Debug, Clone, Copy, PartialEq, Eq, Structural)]
pub enum ParseFail {
    Error(DemError),
    Abort,
}

} // verus!
