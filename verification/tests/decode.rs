use ktx::{Decoder, Endianness, KtxError};

fn magic() -> Vec<u8> {
    vec![0xAB, 0x4B, 0x54, 0x58, 0x20, 0x31, 0x31, 0xBB, 0x0D, 0x0A, 0x1A, 0x0A]
}

fn push_u32_le(buf: &mut Vec<u8>, x: u32) {
    buf.extend_from_slice(&x.to_le_bytes());
}

fn push_u32_be(buf: &mut Vec<u8>, x: u32) {
    buf.extend_from_slice(&x.to_be_bytes());
}

/// Magic, little-endian marker, and the twelve header fields in stream
/// order; mip records are appended by each test.
fn le_prelude(fields: [u32; 12]) -> Vec<u8> {
    let mut buf = magic();
    buf.extend_from_slice(&[0x01, 0x02, 0x03, 0x04]);
    for x in fields {
        push_u32_le(&mut buf, x);
    }
    buf
}

#[test]
fn decode_single_level_little_endian() {
    let payload: Vec<u8> = (0..64).map(|i| i as u8).collect();
    let mut input = le_prelude([5121, 1, 6408, 32856, 6408, 4, 4, 0, 0, 0, 1, 0]);
    push_u32_le(&mut input, 64);
    input.extend_from_slice(&payload);

    let decoder = Decoder::read(&input).unwrap();
    let header = decoder.header();
    assert_eq!(header.endianness, Endianness::Little);
    assert_eq!(header.ty, 5121);
    assert_eq!(header.type_size, 1);
    assert_eq!(header.format, 6408);
    assert_eq!(header.internal_format, 32856);
    assert_eq!(header.base_internal_format, 6408);
    assert_eq!(header.width, 4);
    assert_eq!(header.height, 4);
    assert_eq!(header.depth, 1);
    assert_eq!(header.array_elements, 1);
    assert_eq!(header.faces, 1);
    assert_eq!(header.mips, 1);
    assert_eq!(header.bytes_of_key_value_data, 0);
    assert_eq!(decoder.data().len(), 64);
    assert_eq!(decoder.data(), payload.as_slice());
    assert_eq!(header.vulkan_type(), Ok(37));
}

#[test]
fn oversized_level_reports_truncated_payload() {
    let payload: Vec<u8> = (0..64).map(|i| i as u8).collect();
    let mut input = le_prelude([5121, 1, 6408, 32856, 6408, 4, 4, 0, 0, 0, 1, 0]);
    push_u32_le(&mut input, 100);
    input.extend_from_slice(&payload);

    assert_eq!(Decoder::read(&input).unwrap_err(), KtxError::TruncatedPayload);
}

#[test]
fn bad_magic_rejected() {
    let mut input = le_prelude([5121, 1, 6408, 32856, 6408, 4, 4, 1, 1, 1, 1, 0]);
    input[0] = 0xAC;
    assert_eq!(Decoder::read(&input).unwrap_err(), KtxError::BadMagic);
}

#[test]
fn empty_input_rejected_as_bad_magic() {
    assert_eq!(Decoder::read(&[]).unwrap_err(), KtxError::BadMagic);
}

#[test]
fn short_magic_rejected() {
    let input = [0xAB, 0x4B, 0x54, 0x58, 0x20];
    assert_eq!(Decoder::read(&input).unwrap_err(), KtxError::BadMagic);
}

#[test]
fn bad_marker_rejected() {
    let mut input = magic();
    input.extend_from_slice(&[0x00, 0x00, 0x00, 0x00]);
    for _ in 0..12 {
        push_u32_le(&mut input, 1);
    }
    assert_eq!(Decoder::read(&input).unwrap_err(), KtxError::BadEndiannessMarker);
}

#[test]
fn missing_marker_rejected() {
    let mut input = magic();
    input.extend_from_slice(&[0x01, 0x02]);
    assert_eq!(Decoder::read(&input).unwrap_err(), KtxError::BadEndiannessMarker);
}

#[test]
fn truncated_header_fields_rejected() {
    let mut input = magic();
    input.extend_from_slice(&[0x01, 0x02, 0x03, 0x04]);
    push_u32_le(&mut input, 5121);
    push_u32_le(&mut input, 1);
    push_u32_le(&mut input, 6408);
    assert_eq!(Decoder::read(&input).unwrap_err(), KtxError::Truncated);
}

#[test]
fn metadata_overrun_rejected() {
    let input = le_prelude([5121, 1, 6408, 32856, 6408, 4, 4, 1, 1, 1, 1, 1000]);
    assert_eq!(Decoder::read(&input).unwrap_err(), KtxError::Truncated);
}

#[test]
fn metadata_block_skipped() {
    let mut input = le_prelude([5121, 1, 6408, 32856, 6408, 4, 4, 1, 1, 1, 1, 5]);
    input.extend_from_slice(&[0xDE, 0xAD, 0xBE, 0xEF, 0x99]);
    push_u32_le(&mut input, 3);
    input.extend_from_slice(&[9, 8, 7]);

    let decoder = Decoder::read(&input).unwrap();
    assert_eq!(decoder.header().bytes_of_key_value_data, 5);
    assert_eq!(decoder.data(), &[9, 8, 7]);
}

#[test]
fn zero_extents_normalized_to_one() {
    let mut input = le_prelude([5121, 1, 6408, 32856, 6408, 0, 0, 0, 0, 0, 0, 0]);
    push_u32_le(&mut input, 0);

    let decoder = Decoder::read(&input).unwrap();
    let header = decoder.header();
    assert_eq!(header.width, 1);
    assert_eq!(header.height, 1);
    assert_eq!(header.depth, 1);
    assert_eq!(header.array_elements, 1);
    assert_eq!(header.faces, 1);
    assert_eq!(header.mips, 1);
    assert_eq!(decoder.data().len(), 0);
}

#[test]
fn big_endian_decode() {
    let mut input = magic();
    input.extend_from_slice(&[0x04, 0x03, 0x02, 0x01]);
    for x in [5121, 1, 6408, 32856, 6408, 8, 2, 1, 1, 1, 1, 0] {
        push_u32_be(&mut input, x);
    }
    push_u32_be(&mut input, 4);
    input.extend_from_slice(&[10, 20, 30, 40]);

    let decoder = Decoder::read(&input).unwrap();
    let header = decoder.header();
    assert_eq!(header.endianness, Endianness::Big);
    assert_eq!(header.ty, 5121);
    assert_eq!(header.width, 8);
    assert_eq!(header.height, 2);
    assert_eq!(decoder.data(), &[10, 20, 30, 40]);
}

#[test]
fn multi_level_payloads_concatenated_in_order() {
    let mut input = le_prelude([5121, 1, 6408, 32856, 6408, 4, 4, 1, 1, 1, 2, 0]);
    push_u32_le(&mut input, 3);
    input.extend_from_slice(&[1, 2, 3]);
    push_u32_le(&mut input, 2);
    input.extend_from_slice(&[9, 9]);

    let decoder = Decoder::read(&input).unwrap();
    assert_eq!(decoder.data().len(), 3 + 2);
    assert_eq!(decoder.data(), &[1, 2, 3, 9, 9]);
}

#[test]
fn missing_size_field_reports_truncated() {
    let input = le_prelude([5121, 1, 6408, 32856, 6408, 4, 4, 1, 1, 1, 1, 0]);
    assert_eq!(Decoder::read(&input).unwrap_err(), KtxError::Truncated);
}

#[test]
fn second_level_size_field_missing_reports_truncated() {
    let mut input = le_prelude([5121, 1, 6408, 32856, 6408, 4, 4, 1, 1, 1, 2, 0]);
    push_u32_le(&mut input, 3);
    input.extend_from_slice(&[1, 2, 3]);
    assert_eq!(Decoder::read(&input).unwrap_err(), KtxError::Truncated);
}

#[test]
fn second_level_payload_overrun_reports_truncated_payload() {
    let mut input = le_prelude([5121, 1, 6408, 32856, 6408, 4, 4, 1, 1, 1, 2, 0]);
    push_u32_le(&mut input, 3);
    input.extend_from_slice(&[1, 2, 3]);
    push_u32_le(&mut input, 50);
    input.extend_from_slice(&[9, 9]);
    assert_eq!(Decoder::read(&input).unwrap_err(), KtxError::TruncatedPayload);
}

#[test]
fn trailing_bytes_after_last_level_ignored() {
    let mut input = le_prelude([5121, 1, 6408, 32856, 6408, 4, 4, 1, 1, 1, 1, 0]);
    push_u32_le(&mut input, 2);
    input.extend_from_slice(&[5, 6]);
    input.extend_from_slice(&[0xFF, 0xFF, 0xFF]);

    let decoder = Decoder::read(&input).unwrap();
    assert_eq!(decoder.data(), &[5, 6]);
}
