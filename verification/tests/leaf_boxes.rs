//! Decoding of individual leaf boxes from raw bytes: headers with
//! optional fields, run columns, strings and event messages.

use re_mp4::error::Error;
use re_mp4::mp4box::emsg::EmsgBox;
use re_mp4::mp4box::hdlr::HdlrBox;
use re_mp4::mp4box::tfhd::TfhdBox;
use re_mp4::mp4box::trun::TrunBox;
use re_mp4::mp4box::ReadBox;

fn full_box(name: &[u8; 4], version: u8, flags: u32, payload: &[u8]) -> Vec<u8> {
    let mut body = vec![version];
    body.extend_from_slice(&flags.to_be_bytes()[1..4]);
    body.extend_from_slice(payload);
    let mut out = Vec::new();
    out.extend_from_slice(&(body.len() as u32 + 8).to_be_bytes());
    out.extend_from_slice(name);
    out.extend_from_slice(&body);
    out
}

#[test]
fn tfhd_optional_fields_follow_the_flag_bits() {
    let mut p = Vec::new();
    p.extend_from_slice(&7u32.to_be_bytes()); // track id
    p.extend_from_slice(&123456u64.to_be_bytes()); // base data offset
    p.extend_from_slice(&640u32.to_be_bytes()); // default sample duration
    let flags = TfhdBox::FLAG_BASE_DATA_OFFSET | TfhdBox::FLAG_DEFAULT_SAMPLE_DURATION;
    let b = full_box(b"tfhd", 0, flags, &p);
    let mut pos: u64 = 8;
    let tfhd = TfhdBox::read_box(&b, &mut pos, b.len() as u64).unwrap();
    assert_eq!(tfhd.track_id, 7);
    assert_eq!(tfhd.base_data_offset, Some(123456));
    assert_eq!(tfhd.sample_description_index, None);
    assert_eq!(tfhd.default_sample_duration, Some(640));
    assert_eq!(tfhd.default_sample_size, None);
    assert_eq!(tfhd.default_sample_flags, None);
}

#[test]
fn trun_reads_the_selected_columns() {
    let mut p = Vec::new();
    p.extend_from_slice(&2u32.to_be_bytes()); // sample count
    p.extend_from_slice(&(-16i32).to_be_bytes()); // data offset
    p.extend_from_slice(&100u32.to_be_bytes()); // duration of sample 0
    p.extend_from_slice(&11u32.to_be_bytes()); // size of sample 0
    p.extend_from_slice(&200u32.to_be_bytes()); // duration of sample 1
    p.extend_from_slice(&22u32.to_be_bytes()); // size of sample 1
    let flags = TrunBox::FLAG_DATA_OFFSET | TrunBox::FLAG_SAMPLE_DURATION
        | TrunBox::FLAG_SAMPLE_SIZE;
    let b = full_box(b"trun", 0, flags, &p);
    let mut pos: u64 = 8;
    let trun = TrunBox::read_box(&b, &mut pos, b.len() as u64).unwrap();
    assert_eq!(trun.sample_count, 2);
    assert_eq!(trun.data_offset, Some(-16));
    assert_eq!(trun.sample_durations, vec![100, 200]);
    assert_eq!(trun.sample_sizes, vec![11, 22]);
    assert!(trun.sample_flags.is_empty());
    assert!(trun.sample_cts.is_empty());
}

#[test]
fn trun_count_exceeding_box_size_is_malformed() {
    let mut p = Vec::new();
    p.extend_from_slice(&1000u32.to_be_bytes()); // sample count, no room
    let b = full_box(b"trun", 0, TrunBox::FLAG_SAMPLE_SIZE, &p);
    let mut pos: u64 = 8;
    let r = TrunBox::read_box(&b, &mut pos, b.len() as u64);
    assert!(matches!(r, Err(Error::MalformedContainer(_))));
}

#[test]
fn hdlr_name_decodes_up_to_the_nul() {
    let mut p = Vec::new();
    p.extend_from_slice(&0u32.to_be_bytes());
    p.extend_from_slice(b"vide");
    p.extend_from_slice(&[0u8; 12]);
    p.extend_from_slice(b"VideoHandler\0");
    let b = full_box(b"hdlr", 0, 0, &p);
    let mut pos: u64 = 8;
    let hdlr = HdlrBox::read_box(&b, &mut pos, b.len() as u64).unwrap();
    assert_eq!(&hdlr.handler_type.value, b"vide");
    assert_eq!(hdlr.name, "VideoHandler");
}

#[test]
fn emsg_version_zero_field_order() {
    let mut p = Vec::new();
    p.extend_from_slice(b"urn:test\0");
    p.extend_from_slice(b"v1\0");
    p.extend_from_slice(&1000u32.to_be_bytes()); // timescale
    p.extend_from_slice(&50u32.to_be_bytes()); // presentation time delta
    p.extend_from_slice(&10u32.to_be_bytes()); // event duration
    p.extend_from_slice(&3u32.to_be_bytes()); // id
    p.extend_from_slice(b"payload");
    let b = full_box(b"emsg", 0, 0, &p);
    let mut pos: u64 = 8;
    let emsg = EmsgBox::read_box(&b, &mut pos, b.len() as u64).unwrap();
    assert_eq!(emsg.scheme_id_uri, "urn:test");
    assert_eq!(emsg.value, "v1");
    assert_eq!(emsg.timescale, 1000);
    assert_eq!(emsg.presentation_time, None);
    assert_eq!(emsg.presentation_time_delta, Some(50));
    assert_eq!(emsg.event_duration, 10);
    assert_eq!(emsg.id, 3);
    assert_eq!(emsg.message_data, b"payload".to_vec());
}

#[test]
fn emsg_rejects_invalid_utf8() {
    let mut p = Vec::new();
    p.extend_from_slice(&[0xff, 0xfe, 0x00]); // not UTF-8
    p.extend_from_slice(b"v\0");
    p.extend_from_slice(&1000u32.to_be_bytes());
    p.extend_from_slice(&50u32.to_be_bytes());
    p.extend_from_slice(&10u32.to_be_bytes());
    p.extend_from_slice(&3u32.to_be_bytes());
    let b = full_box(b"emsg", 0, 0, &p);
    let mut pos: u64 = 8;
    let r = EmsgBox::read_box(&b, &mut pos, b.len() as u64);
    assert!(matches!(r, Err(Error::MalformedContainer(_))));
}

#[test]
fn ctts_signed_offsets_round_trip() {
    let mut p = Vec::new();
    p.extend_from_slice(&2u32.to_be_bytes()); // entry count
    p.extend_from_slice(&1u32.to_be_bytes());
    p.extend_from_slice(&(-500i32).to_be_bytes());
    p.extend_from_slice(&2u32.to_be_bytes());
    p.extend_from_slice(&300i32.to_be_bytes());
    let b = full_box(b"ctts", 0, 0, &p);
    let mut pos: u64 = 8;
    let ctts = re_mp4::mp4box::ctts::CttsBox::read_box(&b, &mut pos, b.len() as u64).unwrap();
    assert_eq!(ctts.entries.len(), 2);
    assert_eq!(ctts.entries[0].sample_count, 1);
    assert_eq!(ctts.entries[0].sample_offset, -500);
    assert_eq!(ctts.entries[1].sample_offset, 300);
}

#[test]
fn co64_reads_wide_offsets() {
    let mut p = Vec::new();
    p.extend_from_slice(&1u32.to_be_bytes());
    p.extend_from_slice(&0x1_0000_0000u64.to_be_bytes());
    let b = full_box(b"co64", 0, 0, &p);
    let mut pos: u64 = 8;
    let co64 = re_mp4::mp4box::co64::Co64Box::read_box(&b, &mut pos, b.len() as u64).unwrap();
    assert_eq!(co64.entries, vec![0x1_0000_0000]);
}

#[test]
fn co64_narrows_to_stco_when_offsets_fit() {
    let co = re_mp4::mp4box::co64::Co64Box {
        version: 0,
        flags: 0,
        entries: vec![16, 0xFFFF_FFFF],
    };
    let stco = re_mp4::mp4box::stco::StcoBox::from_co64(&co).expect("offsets fit in 32 bits");
    assert_eq!(stco.version, 0);
    assert_eq!(stco.flags, 0);
    assert_eq!(stco.entries, vec![16u32, 0xFFFF_FFFF]);
}

#[test]
fn co64_narrowing_rejects_an_offset_above_32_bits() {
    let co = re_mp4::mp4box::co64::Co64Box {
        version: 0,
        flags: 0,
        entries: vec![16, 0x1_0000_0000],
    };
    assert!(matches!(
        re_mp4::mp4box::stco::StcoBox::from_co64(&co),
        Err(re_mp4::error::Error::MalformedContainer(_))
    ));
}
