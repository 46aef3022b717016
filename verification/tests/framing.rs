use demohost::framing::{check_header, read_leb128_u32, well_framed};

const HEADER: [u8; 8] = [0x00, 0x61, 0x73, 0x6d, 0x01, 0x00, 0x00, 0x00];

fn with_header(rest: &[u8]) -> Vec<u8> {
    let mut bytes = HEADER.to_vec();
    bytes.extend_from_slice(rest);
    bytes
}

#[test]
fn header_alone_is_a_module() {
    assert!(check_header(&HEADER));
    assert!(well_framed(&HEADER));
}

#[test]
fn empty_and_short_inputs_have_no_header() {
    assert!(!check_header(&[]));
    assert!(!well_framed(&[]));
    assert!(!check_header(&HEADER[..7]));
    assert!(!well_framed(&HEADER[..7]));
    assert!(!well_framed(&HEADER[..4]));
}

#[test]
fn wrong_magic_is_no_header() {
    assert!(!check_header(&[0x01, 0x61, 0x73, 0x6d, 0x01, 0x00, 0x00, 0x00]));
    assert!(!well_framed(b"\0asn\x01\0\0\0"));
    assert!(!well_framed(b"(module)"));
}

#[test]
fn wrong_version_is_no_header() {
    assert!(!check_header(&[0x00, 0x61, 0x73, 0x6d, 0x02, 0x00, 0x00, 0x00]));
    // The header of a component, not of a module.
    assert!(!well_framed(&[0x00, 0x61, 0x73, 0x6d, 0x0d, 0x00, 0x01, 0x00]));
}

#[test]
fn leb128_single_byte() {
    assert_eq!(read_leb128_u32(&[0x00], 0), Some((0, 1)));
    assert_eq!(read_leb128_u32(&[0x7f], 0), Some((127, 1)));
    assert_eq!(read_leb128_u32(&[0xff, 0x05], 1), Some((5, 2)));
}

#[test]
fn leb128_several_bytes() {
    assert_eq!(read_leb128_u32(&[0x80, 0x01], 0), Some((128, 2)));
    assert_eq!(read_leb128_u32(&[0xe5, 0x8e, 0x26], 0), Some((624485, 3)));
    assert_eq!(read_leb128_u32(&[0x00, 0xe5, 0x8e, 0x26, 0x00], 1), Some((624485, 4)));
    assert_eq!(read_leb128_u32(&[0xff, 0xff, 0xff, 0xff, 0x0f], 0), Some((u32::MAX, 5)));
    assert_eq!(read_leb128_u32(&[0x80, 0x80, 0x80, 0x80, 0x01], 0), Some((1 << 28, 5)));
}

#[test]
fn leb128_padded_with_zero_groups() {
    assert_eq!(read_leb128_u32(&[0x80, 0x00], 0), Some((0, 2)));
    assert_eq!(read_leb128_u32(&[0x83, 0x80, 0x80, 0x80, 0x00], 0), Some((3, 5)));
}

#[test]
fn leb128_cut_short() {
    assert_eq!(read_leb128_u32(&[], 0), None);
    assert_eq!(read_leb128_u32(&[0x80], 0), None);
    assert_eq!(read_leb128_u32(&[0xff, 0xff, 0xff], 0), None);
    assert_eq!(read_leb128_u32(&[0x01], 1), None);
    assert_eq!(read_leb128_u32(&[0x01], 7), None);
}

#[test]
fn leb128_too_long_or_too_large() {
    assert_eq!(read_leb128_u32(&[0x80, 0x80, 0x80, 0x80, 0x80, 0x00], 0), None);
    assert_eq!(read_leb128_u32(&[0xff, 0xff, 0xff, 0xff, 0x10], 0), None);
    assert_eq!(read_leb128_u32(&[0xff, 0xff, 0xff, 0xff, 0x7f], 0), None);
}

#[test]
fn whole_sections_are_well_framed() {
    // An empty custom section.
    assert!(well_framed(&with_header(&[0x00, 0x00])));
    // A custom section of three bytes.
    assert!(well_framed(&with_header(&[0x00, 0x03, 0x01, 0x61, 0x62])));
    // Two sections, one after the other.
    assert!(well_framed(&with_header(&[0x01, 0x01, 0x00, 0x03, 0x01, 0x00])));
    // A size written in two bytes.
    assert!(well_framed(&with_header(&[0x00, 0x81, 0x00, 0xaa])));
}

#[test]
fn section_cut_short_is_not_well_framed() {
    // An id without a size.
    assert!(!well_framed(&with_header(&[0x01])));
    // A size that is cut off.
    assert!(!well_framed(&with_header(&[0x01, 0x80])));
    // A section that says three bytes and has two.
    assert!(!well_framed(&with_header(&[0x00, 0x03, 0x01, 0x61])));
    // A whole section, then one that is cut short.
    assert!(!well_framed(&with_header(&[0x01, 0x01, 0x00, 0x03, 0x02, 0x00])));
    // A size of 2^32 - 1 with nothing behind it.
    assert!(!well_framed(&with_header(&[0x00, 0xff, 0xff, 0xff, 0xff, 0x0f])));
}

#[test]
fn section_size_that_is_no_number_is_not_well_framed() {
    assert!(!well_framed(&with_header(&[0x00, 0x80, 0x80, 0x80, 0x80, 0x80, 0x00])));
    assert!(!well_framed(&with_header(&[0x00, 0xff, 0xff, 0xff, 0xff, 0x1f])));
}

#[test]
fn truncating_a_module_inside_a_section_breaks_the_framing() {
    let module = wat::parse_str(
        r#"(module (func (export "do_work") (result i32) i32.const 42))"#,
    )
    .unwrap();
    assert!(well_framed(&module));
    assert!(!well_framed(&module[..module.len() - 1]));
    assert!(!well_framed(&module[..9]));
}
