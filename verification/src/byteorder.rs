use vstd::prelude::*;

use crate::error::KtxError;

verus! {

/// Byte order of every multi-byte integer that follows the endianness
/// marker in the stream.
#[derive(Clone, Copy, Debug, PartialEq, Eq, Structural)]
pub enum Endianness {
    /// Most significant byte first.
    Big,
    /// Least significant byte first.
    Little,
}

/// The value of a 32-bit word whose bytes, from least to most significant,
/// are `b0`, `b1`, `b2`, `b3`.
pub open spec fn word_value(b0: u8, b1: u8, b2: u8, b3: u8) -> u32 {
    (b0 + b1 * 0x100 + b2 * 0x1_0000 + b3 * 0x100_0000) as u32
}

/// The 32-bit value stored at byte offset `i` of `s`, read in byte order `e`.
pub open spec fn u32_at(s: Seq<u8>, i: int, e: Endianness) -> u32
    recommends
        0 <= i,
        i + 4 <= s.len(),
{
    match e {
        Endianness::Little => word_value(s[i], s[i + 1], s[i + 2], s[i + 3]),
        Endianness::Big => word_value(s[i + 3], s[i + 2], s[i + 1], s[i]),
    }
}

/// Reads the 32-bit field at `offset`, in byte order `e`; fails with
/// `Truncated` when fewer than four bytes remain there.
pub(crate) fn read_u32(data: &[u8], offset: usize, e: Endianness) -> (r: Result<u32, KtxError>)
    ensures
        offset + 4 <= data@.len() ==> r == Ok::<u32, KtxError>(u32_at(data@, offset as int, e)),
        offset + 4 > data@.len() ==> r == Err::<u32, KtxError>(KtxError::Truncated),
{
    if data.len() < 4 || offset > data.len() - 4 {
        return Err(KtxError::Truncated);
    }
    let b0 = data[offset];
    let b1 = data[offset + 1];
    let b2 = data[offset + 2];
    let b3 = data[offset + 3];
    let value: u32 = match e {
        Endianness::Little => {
            (b0 as u32) + (b1 as u32) * 0x100 + (b2 as u32) * 0x1_0000 + (b3 as u32) * 0x100_0000
        },
        Endianness::Big => {
            (b3 as u32) + (b2 as u32) * 0x100 + (b1 as u32) * 0x1_0000 + (b0 as u32) * 0x100_0000
        },
    };
    Ok(value)
}

} // verus!
