use vstd::prelude::*;

use crate::byteorder::{Endianness, read_u32, u32_at};
use crate::error::KtxError;

verus! {

/// The decoded KTX header: the selected byte order plus the twelve 32-bit
/// fields that open the container, in stream order.
///
/// `width`, `height`, `depth`, `array_elements`, `faces` and `mips` are
/// normalized at decode time: a raw zero in the stream means "one" and is
/// stored as 1, so each of these six fields is always at least 1 in any
/// header a decode produces.  The remaining fields are passed through
/// unmodified.
#[derive(Clone, Copy, Debug, PartialEq, Eq, Structural)]
pub struct Header {
    /// Byte order governing every multi-byte integer after the marker.
    pub endianness: Endianness,
    /// Source-API type code of the pixel data.
    pub ty: u32,
    /// Size in bytes of one component of `ty`.
    pub type_size: u32,
    /// Source-API pixel format code.
    pub format: u32,
    /// Source-API internal format code.
    pub internal_format: u32,
    /// Source-API base internal format code.
    pub base_internal_format: u32,
    /// Width in pixels of mip level 0; at least 1.
    pub width: u32,
    /// Height in pixels of mip level 0; at least 1.
    pub height: u32,
    /// Depth in pixels of mip level 0; at least 1.
    pub depth: u32,
    /// Number of array elements; at least 1.
    pub array_elements: u32,
    /// Number of cubemap faces; at least 1.
    pub faces: u32,
    /// Number of mip levels; at least 1.
    pub mips: u32,
    /// Length in bytes of the skipped key/value metadata block.
    pub bytes_of_key_value_data: u32,
}

/// Whether `s` starts with the fixed 12-byte magic identifier
/// `AB 4B 54 58 20 31 31 BB 0D 0A 1A 0A`.
pub open spec fn has_magic(s: Seq<u8>) -> bool {
    &&& s.len() >= 12
    &&& s[0] == 0xab
    &&& s[1] == 0x4b
    &&& s[2] == 0x54
    &&& s[3] == 0x58
    &&& s[4] == 0x20
    &&& s[5] == 0x31
    &&& s[6] == 0x31
    &&& s[7] == 0xbb
    &&& s[8] == 0x0d
    &&& s[9] == 0x0a
    &&& s[10] == 0x1a
    &&& s[11] == 0x0a
}

/// The byte order selected by the 4-byte marker at offset 12: `04 03 02 01`
/// selects big-endian, `01 02 03 04` little-endian, anything else (or a
/// buffer too short to hold the marker) selects nothing.
pub open spec fn marker_of(s: Seq<u8>) -> Option<Endianness> {
    if s.len() < 16 {
        None
    } else if s[12] == 0x04 && s[13] == 0x03 && s[14] == 0x02 && s[15] == 0x01 {
        Some(Endianness::Big)
    } else if s[12] == 0x01 && s[13] == 0x02 && s[14] == 0x03 && s[15] == 0x04 {
        Some(Endianness::Little)
    } else {
        None
    }
}

/// The normalization applied to the six extent-like fields: a raw zero in
/// the stream means "one".
pub open spec fn normalized(x: u32) -> u32 {
    if x == 0 {
        1u32
    } else {
        x
    }
}

/// The header described by the twelve 32-bit fields at offsets 16..64 of
/// `s`, read in byte order `e`, with the six extent-like fields normalized.
pub open spec fn header_fields(s: Seq<u8>, e: Endianness) -> Header
    recommends
        s.len() >= 64,
{
    Header {
        endianness: e,
        ty: u32_at(s, 16, e),
        type_size: u32_at(s, 20, e),
        format: u32_at(s, 24, e),
        internal_format: u32_at(s, 28, e),
        base_internal_format: u32_at(s, 32, e),
        width: normalized(u32_at(s, 36, e)),
        height: normalized(u32_at(s, 40, e)),
        depth: normalized(u32_at(s, 44, e)),
        array_elements: normalized(u32_at(s, 48, e)),
        faces: normalized(u32_at(s, 52, e)),
        mips: normalized(u32_at(s, 56, e)),
        bytes_of_key_value_data: u32_at(s, 60, e),
    }
}

/// What parsing the header of `s` yields: the header record and the byte
/// offset of the first mip-level size field, or the error that aborts the
/// decode.
///
/// The magic identifier is checked first, then the endianness marker, then
/// the twelve fields (all present iff `s` holds at least 64 bytes), and
/// finally the metadata block of `bytes_of_key_value_data` bytes is skipped
/// without being interpreted.
pub open spec fn parse_header_spec(s: Seq<u8>) -> Result<(Header, int), KtxError> {
    if !has_magic(s) {
        Err(KtxError::BadMagic)
    } else {
        match marker_of(s) {
            None => Err(KtxError::BadEndiannessMarker),
            Some(e) => {
                if s.len() < 64 {
                    Err(KtxError::Truncated)
                } else {
                    let h = header_fields(s, e);
                    if s.len() < 64 + h.bytes_of_key_value_data {
                        Err(KtxError::Truncated)
                    } else {
                        Ok((h, 64 + h.bytes_of_key_value_data as int))
                    }
                }
            },
        }
    }
}

/// Checks the fixed 12-byte magic identifier at the start of `data`.
fn check_magic(data: &[u8]) -> (r: bool)
    ensures
        r == has_magic(data@),
{
    if data.len() < 12 {
        return false;
    }
    data[0] == 0xab && data[1] == 0x4b && data[2] == 0x54 && data[3] == 0x58 && data[4] == 0x20
        && data[5] == 0x31 && data[6] == 0x31 && data[7] == 0xbb && data[8] == 0x0d
        && data[9] == 0x0a && data[10] == 0x1a && data[11] == 0x0a
}

/// Reads the 4-byte endianness marker at offset 12 of `data`.
fn read_marker(data: &[u8]) -> (r: Option<Endianness>)
    ensures
        r == marker_of(data@),
{
    if data.len() < 16 {
        return None;
    }
    if data[12] == 0x04 && data[13] == 0x03 && data[14] == 0x02 && data[15] == 0x01 {
        Some(Endianness::Big)
    } else if data[12] == 0x01 && data[13] == 0x02 && data[14] == 0x03 && data[15] == 0x04 {
        Some(Endianness::Little)
    } else {
        None
    }
}

/// Parses the magic identifier, the endianness marker and the twelve header
/// fields, skips the metadata block, and returns the header together with
/// the offset of the first mip-level size field.
pub(crate) fn parse_header(data: &[u8]) -> (r: Result<(Header, usize), KtxError>)
    ensures
        (match r {
            Ok(p) => parse_header_spec(data@) == Ok::<(Header, int), KtxError>((p.0, p.1 as int)),
            Err(e) => parse_header_spec(data@) == Err::<(Header, int), KtxError>(e),
        }),
{
    if !check_magic(data) {
        return Err(KtxError::BadMagic);
    }
    let e = match read_marker(data) {
        Some(e) => e,
        None => {
            return Err(KtxError::BadEndiannessMarker);
        },
    };
    let ty = match read_u32(data, 16, e) {
        Ok(v) => v,
        Err(er) => {
            return Err(er);
        },
    };
    let type_size = match read_u32(data, 20, e) {
        Ok(v) => v,
        Err(er) => {
            return Err(er);
        },
    };
    let format = match read_u32(data, 24, e) {
        Ok(v) => v,
        Err(er) => {
            return Err(er);
        },
    };
    let internal_format = match read_u32(data, 28, e) {
        Ok(v) => v,
        Err(er) => {
            return Err(er);
        },
    };
    let base_internal_format = match read_u32(data, 32, e) {
        Ok(v) => v,
        Err(er) => {
            return Err(er);
        },
    };
    let width = match read_u32(data, 36, e) {
        Ok(v) => v,
        Err(er) => {
            return Err(er);
        },
    };
    let height = match read_u32(data, 40, e) {
        Ok(v) => v,
        Err(er) => {
            return Err(er);
        },
    };
    let depth = match read_u32(data, 44, e) {
        Ok(v) => v,
        Err(er) => {
            return Err(er);
        },
    };
    let array_elements = match read_u32(data, 48, e) {
        Ok(v) => v,
        Err(er) => {
            return Err(er);
        },
    };
    let faces = match read_u32(data, 52, e) {
        Ok(v) => v,
        Err(er) => {
            return Err(er);
        },
    };
    let mips = match read_u32(data, 56, e) {
        Ok(v) => v,
        Err(er) => {
            return Err(er);
        },
    };
    let bytes_of_key_value_data = match read_u32(data, 60, e) {
        Ok(v) => v,
        Err(er) => {
            return Err(er);
        },
    };
    if bytes_of_key_value_data as usize > data.len() - 64 {
        return Err(KtxError::Truncated);
    }
    let header = Header {
        endianness: e,
        ty,
        type_size,
        format,
        internal_format,
        base_internal_format,
        width: if width == 0 { 1 } else { width },
        height: if height == 0 { 1 } else { height },
        depth: if depth == 0 { 1 } else { depth },
        array_elements: if array_elements == 0 { 1 } else { array_elements },
        faces: if faces == 0 { 1 } else { faces },
        mips: if mips == 0 { 1 } else { mips },
        bytes_of_key_value_data,
    };
    Ok((header, 64 + bytes_of_key_value_data as usize))
}

} // verus!
