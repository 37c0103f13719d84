use ktx::{Endianness, Header, KtxError};

fn header_with_triple(internal_format: u32, format: u32, ty: u32) -> Header {
    Header {
        endianness: Endianness::Little,
        ty,
        type_size: 1,
        format,
        internal_format,
        base_internal_format: format,
        width: 1,
        height: 1,
        depth: 1,
        array_elements: 1,
        faces: 1,
        mips: 1,
        bytes_of_key_value_data: 0,
    }
}

#[test]
fn known_triples_map_to_their_exact_codes() {
    assert_eq!(header_with_triple(37820, 0, 0).vulkan_type(), Ok(181));
    assert_eq!(header_with_triple(32854, 32993, 32819).vulkan_type(), Ok(3));
    assert_eq!(header_with_triple(35056, 34041, 34042).vulkan_type(), Ok(129));
    assert_eq!(header_with_triple(36013, 34041, 36269).vulkan_type(), Ok(130));
    assert_eq!(header_with_triple(33776, 0, 0).vulkan_type(), Ok(131));
    assert_eq!(header_with_triple(32856, 32993, 5121).vulkan_type(), Ok(44));
    assert_eq!(header_with_triple(32856, 6408, 5121).vulkan_type(), Ok(37));
    assert_eq!(header_with_triple(35842, 0, 0).vulkan_type(), Ok(1000054001));
    assert_eq!(header_with_triple(37873, 0, 0).vulkan_type(), Ok(1000054007));
}

#[test]
fn unknown_triple_reports_unknown_format() {
    assert_eq!(header_with_triple(1, 2, 3).vulkan_type(), Err(KtxError::UnknownFormat));
    // A near miss: the internal format exists only with another type code.
    assert_eq!(header_with_triple(32856, 6408, 0).vulkan_type(), Err(KtxError::UnknownFormat));
    assert_eq!(header_with_triple(0, 0, 0).vulkan_type(), Err(KtxError::UnknownFormat));
}
