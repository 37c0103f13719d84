use vstd::prelude::*;

use crate::byteorder::{Endianness, read_u32, u32_at};
use crate::error::KtxError;
use crate::header::{Header, has_magic, marker_of, parse_header, parse_header_spec};

verus! {

/// What extracting `n` mip levels starting at byte offset `off` of `s`
/// yields: the concatenation, level by level in ascending order, of each
/// level's payload bytes, together with the offset just past the last
/// consumed byte; or the error that aborts the decode.
///
/// Each level is a 32-bit size field read in byte order `e` (`Truncated`
/// when fewer than four bytes remain), followed by that many payload bytes
/// (`TruncatedPayload` when fewer remain).
pub open spec fn extract_levels(s: Seq<u8>, off: int, e: Endianness, n: nat) -> Result<
    (Seq<u8>, int),
    KtxError,
>
    decreases n,
{
    if n == 0 {
        Ok((Seq::empty(), off))
    } else if off + 4 > s.len() {
        Err(KtxError::Truncated)
    } else {
        let size = u32_at(s, off, e) as int;
        if off + 4 + size > s.len() {
            Err(KtxError::TruncatedPayload)
        } else {
            match extract_levels(s, off + 4 + size, e, (n - 1) as nat) {
                Ok(rest) => Ok((s.subrange(off + 4, off + 4 + size) + rest.0, rest.1)),
                Err(er) => Err(er),
            }
        }
    }
}

/// `r` with `prefix` prepended to its payload, errors unchanged.
pub open spec fn prepend_payload(prefix: Seq<u8>, r: Result<(Seq<u8>, int), KtxError>) -> Result<
    (Seq<u8>, int),
    KtxError,
> {
    match r {
        Ok(p) => Ok((prefix + p.0, p.1)),
        Err(er) => Err(er),
    }
}

/// What decoding the byte buffer `s` yields: the header and the
/// concatenated mip-level payload bytes, or the error that aborts the
/// decode.
pub open spec fn decode_spec(s: Seq<u8>) -> Result<(Header, Seq<u8>), KtxError> {
    match parse_header_spec(s) {
        Err(er) => Err(er),
        Ok(p) => {
            match extract_levels(s, p.1, p.0.endianness, p.0.mips as nat) {
                Err(er) => Err(er),
                Ok(levels) => Ok((p.0, levels.0)),
            }
        },
    }
}

/// A fully decoded KTX container: the header and one contiguous buffer
/// holding every mip level's payload bytes in ascending level order, with
/// no level-boundary markers retained.
#[derive(Debug)]
pub struct Decoder {
    /// The decoded header.
    pub header: Header,
    /// The concatenated mip-level payload bytes, level 0 first.
    pub data: Vec<u8>,
}

impl Decoder {
    /// The decoded header.
    pub fn header(&self) -> (h: &Header)
        ensures
            *h == self.header,
    {
        &self.header
    }

    /// The concatenated mip-level payload bytes, level 0 first.
    pub fn data(&self) -> (d: &[u8])
        ensures
            d@ == self.data@,
    {
        self.data.as_slice()
    }

    /// Decodes a complete in-memory KTX byte buffer.
    ///
    /// Succeeds exactly when `decode_spec(data@)` does, returning the header
    /// and payload that it describes; fails with exactly the error that it
    /// describes.  No input makes this function panic or read out of
    /// bounds.
    pub fn read(data: &[u8]) -> (r: Result<Decoder, KtxError>)
        ensures
            (match r {
                Ok(d) => decode_spec(data@) == Ok::<(Header, Seq<u8>), KtxError>(
                    (d.header, d.data@),
                ),
                Err(er) => decode_spec(data@) == Err::<(Header, Seq<u8>), KtxError>(er),
            }),
    {
        let (header, start) = match parse_header(data) {
            Ok(p) => p,
            Err(er) => {
                return Err(er);
            },
        };
        let e = header.endianness;
        let m = header.mips;
        let dlen: usize = data.len();
        proof {
            // Parsing succeeded, so the metadata block fit: `start` is in bounds.
            assert(start <= data@.len());
            match extract_levels(data@, start as int, e, m as nat) {
                Ok(p) => {
                    assert(Seq::<u8>::empty() + p.0 =~= p.0);
                },
                Err(_) => {},
            }
        }
        let mut out: Vec<u8> = Vec::new();
        let mut off: usize = start;
        let mut level: u32 = 0;
        while level < m
            invariant
                level <= m,
                dlen == data@.len(),
                off <= data@.len(),
                parse_header_spec(data@) == Ok::<(Header, int), KtxError>((header, start as int)),
                e == header.endianness,
                m == header.mips,
                extract_levels(data@, start as int, e, m as nat) == prepend_payload(
                    out@,
                    extract_levels(data@, off as int, e, (m - level) as nat),
                ),
            decreases m - level,
        {
            let ghost k = (m - level) as nat;
            let ghost out_before_level = out@;
            let ghost off_before = off as int;
            let size = match read_u32(data, off, e) {
                Ok(v) => v,
                Err(er) => {
                    proof {
                        assert(extract_levels(data@, off as int, e, k) == Err::<
                            (Seq<u8>, int),
                            KtxError,
                        >(KtxError::Truncated));
                    }
                    return Err(er);
                },
            };
            let body = off + 4;
            if size as usize > dlen - body {
                proof {
                    assert(extract_levels(data@, off as int, e, k) == Err::<
                        (Seq<u8>, int),
                        KtxError,
                    >(KtxError::TruncatedPayload));
                }
                return Err(KtxError::TruncatedPayload);
            }
            let size = size as usize;
            let mut j: usize = 0;
            while j < size
                invariant
                    j <= size,
                    dlen == data@.len(),
                    body + size <= data@.len(),
                    out@ == out_before_level + data@.subrange(body as int, body + j),
                decreases size - j,
            {
                let byte = data[body + j];
                out.push(byte);
                proof {
                    assert(out@ =~= out_before_level + data@.subrange(body as int, body + j + 1));
                }
                j = j + 1;
            }
            proof {
                let s = data@;
                let o = off_before;
                let size_i = u32_at(s, o, e) as int;
                let chunk = s.subrange(o + 4, o + 4 + size_i);
                assert(out@ == out_before_level + chunk);
                match extract_levels(s, o + 4 + size_i, e, (k - 1) as nat) {
                    Ok(rest) => {
                        assert(extract_levels(s, o, e, k) == Ok::<(Seq<u8>, int), KtxError>(
                            (chunk + rest.0, rest.1),
                        ));
                        assert((out_before_level + chunk) + rest.0 =~= out_before_level + (chunk
                            + rest.0));
                    },
                    Err(er) => {
                        assert(extract_levels(s, o, e, k) == Err::<(Seq<u8>, int), KtxError>(er));
                    },
                }
            }
            off = body + size;
            level = level + 1;
        }
        proof {
            assert(extract_levels(data@, off as int, e, 0nat) == Ok::<(Seq<u8>, int), KtxError>(
                (Seq::empty(), off as int),
            ));
            assert(out@ + Seq::<u8>::empty() =~= out@);
        }
        Ok(Decoder { header, data: out })
    }
}

/// For any input whose first 12 bytes differ from the fixed magic
/// identifier (or that is shorter than 12 bytes), the decode fails with
/// `BadMagic`, never proceeding further.
pub proof fn lemma_bad_magic_rejects(s: Seq<u8>)
    requires
        !has_magic(s),
    ensures
        decode_spec(s) == Err::<(Header, Seq<u8>), KtxError>(KtxError::BadMagic),
{
}

/// For any input passing the magic check whose 4-byte marker equals
/// neither the big-endian nor the little-endian reference sequence, the
/// decode fails with `BadEndiannessMarker`.
pub proof fn lemma_bad_marker_rejects(s: Seq<u8>)
    requires
        has_magic(s),
        marker_of(s) is None,
    ensures
        decode_spec(s) == Err::<(Header, Seq<u8>), KtxError>(KtxError::BadEndiannessMarker),
{
}

/// Every header a successful decode produces has `width`, `height`,
/// `depth`, `array_elements`, `faces` and `mips` all at least 1, even
/// where the corresponding stream field was 0.
pub proof fn lemma_extents_at_least_one(s: Seq<u8>)
    ensures
        (match decode_spec(s) {
            Ok(p) => p.0.width >= 1 && p.0.height >= 1 && p.0.depth >= 1 && p.0.array_elements
                >= 1 && p.0.faces >= 1 && p.0.mips >= 1,
            Err(_) => true,
        }),
{
}

/// The sum of the `n` per-level size fields that the extraction walk
/// starting at `off` reads; 0 where the walk fails.
pub open spec fn size_sum(s: Seq<u8>, off: int, e: Endianness, n: nat) -> int
    decreases n,
{
    if n == 0 {
        0
    } else if off + 4 > s.len() {
        0
    } else {
        let size = u32_at(s, off, e) as int;
        if off + 4 + size > s.len() {
            0
        } else {
            size + size_sum(s, off + 4 + size, e, (n - 1) as nat)
        }
    }
}

/// In a successful extraction, the payload buffer length equals exactly
/// the sum of the per-level size fields read along the walk.
pub proof fn lemma_payload_length_is_size_sum(s: Seq<u8>, off: int, e: Endianness, n: nat)
    requires
        0 <= off,
    ensures
        (match extract_levels(s, off, e, n) {
            Ok(p) => p.0.len() == size_sum(s, off, e, n),
            Err(_) => true,
        }),
    decreases n,
{
    if n > 0 && off + 4 <= s.len() {
        let size = u32_at(s, off, e) as int;
        if off + 4 + size <= s.len() {
            lemma_payload_length_is_size_sum(s, off + 4 + size, e, (n - 1) as nat);
        }
    }
}

/// In a successful decode, the payload buffer length equals the sum of the
/// per-level size fields read during extraction.
pub proof fn lemma_decode_payload_length(s: Seq<u8>)
    ensures
        (match decode_spec(s) {
            Ok(d) => (match parse_header_spec(s) {
                Ok(h) => d.1.len() == size_sum(s, h.1, h.0.endianness, h.0.mips as nat),
                Err(_) => false,
            }),
            Err(_) => true,
        }),
{
    match parse_header_spec(s) {
        Ok(h) => {
            lemma_payload_length_is_size_sum(s, h.1, h.0.endianness, h.0.mips as nat);
        },
        Err(_) => {},
    }
}

/// In a successful extraction of at least one level, the first level's
/// declared slice stands at the front of the payload, byte for byte.
pub proof fn lemma_first_level_is_prefix(s: Seq<u8>, off: int, e: Endianness, n: nat)
    requires
        0 <= off,
        n >= 1,
        extract_levels(s, off, e, n) is Ok,
    ensures
        off + 4 <= s.len(),
        off + 4 + u32_at(s, off, e) <= s.len(),
        (match extract_levels(s, off, e, n) {
            Ok(p) => p.0.subrange(0, u32_at(s, off, e) as int) == s.subrange(
                off + 4,
                off + 4 + u32_at(s, off, e),
            ),
            Err(_) => true,
        }),
{
    let size = u32_at(s, off, e) as int;
    match extract_levels(s, off + 4 + size, e, (n - 1) as nat) {
        Ok(rest) => {
            assert((s.subrange(off + 4, off + 4 + size) + rest.0).subrange(0, size)
                =~= s.subrange(off + 4, off + 4 + size));
        },
        Err(_) => {},
    }
}

/// The payload of a successful extraction is the concatenation of its
/// levels in ascending order: at every split point `k`, the bytes of the
/// first `k` levels stand in front, and the bytes of the remaining levels,
/// extracted from where level `k` begins, follow.
pub proof fn lemma_extract_decomposes(s: Seq<u8>, off: int, e: Endianness, n: nat, k: nat)
    requires
        k <= n,
        extract_levels(s, off, e, n) is Ok,
    ensures
        ({
            &&& extract_levels(s, off, e, k) matches Ok(front)
            &&& extract_levels(s, front.1, e, (n - k) as nat) matches Ok(back)
            &&& extract_levels(s, off, e, n) == Ok::<(Seq<u8>, int), KtxError>(
                (front.0 + back.0, back.1),
            )
        }),
    decreases k,
{
    match extract_levels(s, off, e, n) {
        Ok(pn) => {
            if k == 0 {
                assert(Seq::<u8>::empty() + pn.0 =~= pn.0);
            } else {
                let size = u32_at(s, off, e) as int;
                let chunk = s.subrange(off + 4, off + 4 + size);
                lemma_extract_decomposes(s, off + 4 + size, e, (n - 1) as nat, (k - 1) as nat);
                match extract_levels(s, off + 4 + size, e, (k - 1) as nat) {
                    Ok(mid) => {
                        match extract_levels(s, mid.1, e, (n - k) as nat) {
                            Ok(back) => {
                                assert((chunk + mid.0) + back.0 =~= chunk + (mid.0 + back.0));
                            },
                            Err(_) => {},
                        }
                    },
                    Err(_) => {},
                }
            }
        },
        Err(_) => {},
    }
}

/// If the level walk reaches a size field claiming more bytes than remain
/// in the input, extraction fails with `TruncatedPayload`: here the first
/// `k` levels succeed and the next size field overruns.
pub proof fn lemma_oversized_level_fails(s: Seq<u8>, off: int, e: Endianness, n: nat, k: nat)
    requires
        k < n,
        ({
            &&& extract_levels(s, off, e, k) matches Ok(p)
            &&& p.1 + 4 <= s.len()
            &&& p.1 + 4 + u32_at(s, p.1, e) > s.len()
        }),
    ensures
        extract_levels(s, off, e, n) == Err::<(Seq<u8>, int), KtxError>(
            KtxError::TruncatedPayload,
        ),
    decreases k,
{
    if k > 0 {
        let size = u32_at(s, off, e) as int;
        match extract_levels(s, off, e, k) {
            Ok(p) => {
                match extract_levels(s, off + 4 + size, e, (k - 1) as nat) {
                    Ok(rest) => {
                        lemma_oversized_level_fails(
                            s,
                            off + 4 + size,
                            e,
                            (n - 1) as nat,
                            (k - 1) as nat,
                        );
                    },
                    Err(_) => {
                        assert(false);
                    },
                }
            },
            Err(_) => {
                assert(false);
            },
        }
    }
}

/// If any per-level size field claims more bytes than remain in the input,
/// the decode fails with `TruncatedPayload`: here the first `k` levels
/// succeed and level `k`'s size field overruns.
pub proof fn lemma_decode_truncated_payload(s: Seq<u8>, k: nat)
    requires
        ({
            &&& parse_header_spec(s) matches Ok(h)
            &&& k < h.0.mips
            &&& extract_levels(s, h.1, h.0.endianness, k) matches Ok(p)
            &&& p.1 + 4 <= s.len()
            &&& p.1 + 4 + u32_at(s, p.1, h.0.endianness) > s.len()
        }),
    ensures
        decode_spec(s) == Err::<(Header, Seq<u8>), KtxError>(KtxError::TruncatedPayload),
{
    match parse_header_spec(s) {
        Ok(h) => {
            lemma_oversized_level_fails(s, h.1, h.0.endianness, h.0.mips as nat, k);
        },
        Err(_) => {},
    }
}

} // verus!
