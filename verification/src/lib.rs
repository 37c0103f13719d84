//! Decoder for the KTX 1.1 texture container format.
//!
//! A KTX file is a fixed 12-byte magic identifier, a 4-byte endianness
//! marker, twelve 32-bit header fields, a skipped key/value metadata block,
//! and a sequence of mip-level image payloads.  [`Decoder::read`] turns an
//! in-memory byte buffer into a [`Header`] plus one contiguous payload
//! buffer, and [`Header::vulkan_type`] translates the header's
//! `(internal_format, format, type)` triple into a Vulkan format code.

mod byteorder;
mod decoder;
mod error;
mod format;
mod header;

pub use byteorder::Endianness;
pub use byteorder::u32_at;
pub use byteorder::word_value;
pub use decoder::Decoder;
pub use decoder::decode_spec;
pub use decoder::extract_levels;
pub use decoder::lemma_bad_magic_rejects;
pub use decoder::lemma_bad_marker_rejects;
pub use decoder::lemma_decode_payload_length;
pub use decoder::lemma_decode_truncated_payload;
pub use decoder::lemma_extract_decomposes;
pub use decoder::lemma_extents_at_least_one;
pub use decoder::lemma_first_level_is_prefix;
pub use decoder::lemma_oversized_level_fails;
pub use decoder::lemma_payload_length_is_size_sum;
pub use decoder::prepend_payload;
pub use decoder::size_sum;
pub use error::KtxError;
pub use format::vulkan_format_code;
pub use header::Header;
pub use header::has_magic;
pub use header::header_fields;
pub use header::marker_of;
pub use header::normalized;
pub use header::parse_header_spec;
