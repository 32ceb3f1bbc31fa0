//! Box-header decoding: the 32-bit size, the 64-bit size escape, and its
//! malformed small values.

use re_mp4::error::Error;
use re_mp4::mp4box::{BoxHeader, BoxType};
use re_mp4::types::FourCC;

#[test]
fn test_fourcc() {
    let ftyp_fcc = 0x66747970;
    let ftyp_value = FourCC::from(ftyp_fcc);
    assert_eq!(&ftyp_value.value[..], b"ftyp");
    let ftyp_fcc2: u32 = ftyp_value.into();
    assert_eq!(ftyp_fcc, ftyp_fcc2);
}

#[test]
fn test_largesize_too_small() {
    let bytes = [0, 0, 0, 1, 1, 2, 3, 4, 0, 0, 0, 0, 0, 0, 0, 7];
    let mut pos: u64 = 0;
    let error = BoxHeader::read(&bytes, &mut pos);
    assert!(matches!(error, Err(Error::MalformedContainer(_))));
}

#[test]
fn test_zero_largesize() {
    let bytes = [0, 0, 0, 1, 1, 2, 3, 4, 0, 0, 0, 0, 0, 0, 0, 8];
    let mut pos: u64 = 0;
    let error = BoxHeader::read(&bytes, &mut pos);
    assert!(matches!(error, Err(Error::MalformedContainer(_))));
}

#[test]
fn test_nonzero_largesize_too_small() {
    let bytes = [0, 0, 0, 1, 1, 2, 3, 4, 0, 0, 0, 0, 0, 0, 0, 15];
    let mut pos: u64 = 0;
    let error = BoxHeader::read(&bytes, &mut pos);
    assert!(matches!(error, Err(Error::MalformedContainer(_))));
}

#[test]
fn test_valid_largesize() {
    let bytes = [0, 0, 0, 1, 1, 2, 3, 4, 0, 0, 0, 0, 0, 0, 0, 16];
    let mut pos: u64 = 0;
    let header = BoxHeader::read(&bytes, &mut pos);
    assert!(matches!(header, Ok(BoxHeader { size: 8, .. })));
    assert_eq!(pos, 16);
}

#[test]
fn plain_header_reads_size_and_type() {
    let bytes = [0, 0, 0, 24, b'm', b'o', b'o', b'v'];
    let mut pos: u64 = 0;
    let header = BoxHeader::read(&bytes, &mut pos).unwrap();
    assert_eq!(header.size, 24);
    assert!(matches!(header.name, BoxType::MoovBox));
    assert_eq!(pos, 8);
}

#[test]
fn unknown_type_keeps_its_code() {
    let bytes = [0, 0, 0, 8, b'z', b'z', b'z', b'z'];
    let mut pos: u64 = 0;
    let header = BoxHeader::read(&bytes, &mut pos).unwrap();
    match header.name {
        BoxType::UnknownBox(code) => assert_eq!(code, 0x7a7a7a7a),
        _ => panic!("expected an unknown box code"),
    }
}

#[test]
fn truncated_header_is_an_io_error() {
    let bytes = [0, 0, 0];
    let mut pos: u64 = 0;
    let error = BoxHeader::read(&bytes, &mut pos);
    assert!(matches!(error, Err(Error::Io)));
}

#[test]
fn box_type_codes_round_trip() {
    assert_eq!(BoxType::from_u32(0x6d6f6f76).to_u32(), 0x6d6f6f76);
    assert!(matches!(BoxType::from_u32(0x6d646174), BoxType::MdatBox));
    assert_eq!(BoxType::UnknownBox(42).to_u32(), 42);
}
