//! Codec sample entries: track-kind classification, codec strings, and
//! the small value decoders around them.

use re_mp4::error::Error;
use re_mp4::mp4box::avc1::{Avc1Box, AvcCBox};
use re_mp4::mp4box::stsd::StsdBoxContent;
use re_mp4::mp4box::RawBox;
use re_mp4::types::{
    AudioObjectType, ChannelConfig, DataType, FourCC, SampleFreqIndex, TrackKind,
};

fn avc1_content() -> StsdBoxContent {
    StsdBoxContent::Avc1(Avc1Box {
        data_reference_index: 1,
        width: 640,
        height: 480,
        horizresolution: re_mp4::types::FixedPointU16::new(0x48),
        vertresolution: re_mp4::types::FixedPointU16::new(0x48),
        frame_count: 1,
        depth: 24,
        avcc: RawBox {
            contents: AvcCBox {
                configuration_version: 1,
                avc_profile_indication: 0x64,
                profile_compatibility: 0x00,
                avc_level_indication: 0x28,
                length_size_minus_one: 3,
                sequence_parameter_sets: Vec::new(),
                picture_parameter_sets: Vec::new(),
                ext: Vec::new(),
            },
            raw: Vec::new(),
        },
    })
}

#[test]
fn avc_codec_string() {
    let s = avc1_content().codec_string().expect("avc has a codec string");
    assert_eq!(s, "avc1.640028");
}

#[test]
fn avc_entry_is_a_video_track() {
    let stsd = re_mp4::mp4box::stsd::StsdBox { version: 0, flags: 0, contents: avc1_content() };
    assert_eq!(stsd.kind(), Some(TrackKind::Video));
}

#[test]
fn unknown_entry_has_no_kind() {
    let stsd = re_mp4::mp4box::stsd::StsdBox {
        version: 0,
        flags: 0,
        contents: StsdBoxContent::Unknown(FourCC::from(0x7a7a7a7au32)),
    };
    assert_eq!(stsd.kind(), None);
    assert_eq!(stsd.contents.codec_string(), None);
    assert_eq!(stsd.contents.bit_depth(), None);
}

#[test]
fn handler_fourcc_classification() {
    assert_eq!(TrackKind::from_fourcc(&FourCC::from(*b"vide")).unwrap(), TrackKind::Video);
    assert_eq!(TrackKind::from_fourcc(&FourCC::from(*b"soun")).unwrap(), TrackKind::Audio);
    assert_eq!(TrackKind::from_fourcc(&FourCC::from(*b"sbtl")).unwrap(), TrackKind::Subtitle);
    assert!(matches!(
        TrackKind::from_fourcc(&FourCC::from(*b"zzzz")),
        Err(Error::MalformedContainer(_))
    ));
    assert_eq!(&TrackKind::Video.fourcc().value, b"vide");
}

#[test]
fn data_type_codes() {
    assert!(matches!(DataType::from_u32(0), Ok(DataType::Binary)));
    assert!(matches!(DataType::from_u32(1), Ok(DataType::Text)));
    assert!(matches!(DataType::from_u32(0xD), Ok(DataType::Image)));
    assert!(matches!(DataType::from_u32(0x15), Ok(DataType::TempoCpil)));
    assert!(matches!(DataType::from_u32(7), Err(Error::MalformedContainer(_))));
}

#[test]
fn audio_object_type_codes() {
    assert!(matches!(AudioObjectType::from_u8(2), Ok(AudioObjectType::AacLowComplexity)));
    assert!(matches!(AudioObjectType::from_u8(10), Err(Error::MalformedContainer(_))));
    assert!(matches!(AudioObjectType::from_u8(47), Err(Error::MalformedContainer(_))));
}

#[test]
fn sample_frequency_table() {
    let f = SampleFreqIndex::from_u8(3).unwrap();
    assert_eq!(f.freq(), 48000);
    assert!(matches!(SampleFreqIndex::from_u8(0xd), Err(Error::MalformedContainer(_))));
}

#[test]
fn channel_configurations() {
    assert!(matches!(ChannelConfig::from_u8(2), Ok(ChannelConfig::Stereo)));
    assert!(matches!(ChannelConfig::from_u8(0), Err(Error::MalformedContainer(_))));
}

#[test]
fn nul_terminated_names_are_cut() {
    let cut = re_mp4::mp4box::hdlr::take_until_nul(b"VideoHandler\0junk".to_vec());
    assert_eq!(cut, b"VideoHandler".to_vec());
    let uncut = re_mp4::mp4box::hdlr::take_until_nul(b"abc".to_vec());
    assert_eq!(uncut, b"abc".to_vec());
}

#[test]
fn fixed_point_values() {
    let w = re_mp4::types::FixedPointU16::new_raw(640 << 16);
    assert_eq!(w.value(), 640);
    assert_eq!(w.raw_value(), 640 << 16);
    let v = re_mp4::types::FixedPointU8::new(1);
    assert_eq!(v.value(), 1);
    assert_eq!(v.raw_value(), 0x100);
    let b = re_mp4::types::FixedPointI8::new_raw(-0x180);
    assert_eq!(b.value(), -1);
}
