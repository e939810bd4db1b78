//! What can go wrong when a record is packed or unpacked.
//!
//! Every failure concerns one frame only: a frame that is refused leaves no
//! trace in any other value of the library.

use vstd::prelude::*;

verus! {

/// A field whose value can be too wide for its place on the wire.
#[derive(Debug, Clone, Copy, PartialEq, Eq, Structural)]
pub enum WireField {
    /// The sender of a comment record, eight bits.
    Uid,
    /// The recipient of a comment record, eight bits.
    DestinationUid,
    /// The sequence number of a comment record, eight bits.
    MsgId,
    /// The relay budget of a comment record, three bits.
    HopsLeft,
    /// The role of the sending device, two bits.
    CommentType,
    /// The kind of message, two bits.
    MsgType,
    /// The team of the sender, eight bits.
    TeamNumber,
    /// The leading format character of a position report, one byte.
    CompressionFormat,
    /// The symbol table character of a position report, one byte.
    SymbolTable,
    /// The symbol code character of a position report, one byte.
    SymbolCode,
    /// The compression type character of a position report, one byte.
    CompressionType,
}

/// A value that does not fit the width its field has on the wire.
///
/// Routing fields are never clamped: a clamped relay budget or address would
/// send a frame somewhere else than its sender meant.
#[derive(Debug, Clone, Copy, PartialEq, Eq, Structural)]
pub struct RangeError {
    /// The field that was refused.
    pub field: WireField,
    /// The value that was offered.
    pub value: u32,
    /// The number of bits the field has.
    pub bits: u8,
}

/// The refusal of `value` for `field`, which has `bits` bits.
pub open spec fn refusal(field: WireField, value: u32, bits: u8) -> Option<RangeError> {
    Some(RangeError { field, value, bits })
}

/// A byte sequence of the wrong size for the record it should hold.
#[derive(Debug, Clone, Copy, PartialEq, Eq, Structural)]
pub struct DecodeLengthError {
    /// The number of bytes the record has.
    pub expected: usize,
    /// The number of bytes that were received.
    pub actual: usize,
}

/// Why a received position report was refused.
///
/// A report of the right size always holds a comment record of the right
/// size, and a comment record of the right size is always read; so the size
/// of the report is the only thing that can be wrong with it.
#[derive(Debug, Clone, Copy, PartialEq, Eq, Structural)]
pub enum EnvelopeDecodeError {
    /// The report has the wrong size.
    Length(DecodeLengthError),
}

} // verus!
