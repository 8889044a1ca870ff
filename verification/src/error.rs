//! Typed failure values of the codec.
//!
//! Every expected failure is a value the caller inspects; nothing panics.
//! `Incomplete` alone invites a retry with more bytes, and `UnknownOpcode`
//! alone permits the caller to skip the framed payload and keep the stream
//! alive; the remaining kinds mean the offending message is unusable.

use vstd::prelude::*;

verus! {

/// Why a decode failed.
#[derive(Copy, Clone, Debug, PartialEq, Eq, Structural)]
pub enum DecodeError {
    /// The buffer ends before the declared header or payload does: feed
    /// more bytes and retry.
    Incomplete,
    /// The header names an opcode with no registered payload shape; the
    /// framing is intact, so the caller may skip the declared payload.
    UnknownOpcode,
    /// A closed-enumeration field holds an integer with no variant.
    InvalidEnumValue,
    /// The declared lengths and the bytes present disagree: the stream is
    /// desynchronized.
    Malformed,
}

/// Why an encode was refused.
#[derive(Copy, Clone, Debug, PartialEq, Eq, Structural)]
pub enum EncodeError {
    /// A string field exceeds the 255-byte bound of its 1-byte length
    /// prefix.
    StringTooLong,
    /// The padded payload exceeds what the header's 16-bit length field,
    /// counted in 4-byte units, can declare.
    PayloadTooLong,
}

} // verus!
