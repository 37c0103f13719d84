use vstd::prelude::*;

verus! {

/// The ways a decode or a format lookup can fail.
///
/// Every failure aborts the decode immediately; no partial result is ever
/// produced, and malformed input never causes a panic or an out-of-bounds
/// read.
#[derive(Clone, Copy, Debug, PartialEq, Eq, Structural)]
pub enum KtxError {
    /// The first 12 bytes of the input differ from the fixed magic
    /// identifier (or fewer than 12 bytes were supplied).
    BadMagic,
    /// The 4-byte endianness marker matches neither the big-endian nor the
    /// little-endian reference sequence.
    BadEndiannessMarker,
    /// Fewer bytes remain than a fixed-size field, the metadata block, or a
    /// per-level size field requires.
    Truncated,
    /// A mip level's size field claims more payload bytes than remain in the
    /// input.
    TruncatedPayload,
    /// The `(internal_format, format, type)` triple has no entry in the
    /// correspondence table.
    UnknownFormat,
}

} // verus!
