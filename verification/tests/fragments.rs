//! Fragment merging: the default cascade, the base-data-offset rules, and
//! decode-timestamp continuity across fragments.

use re_mp4::error::Error;
use re_mp4::mp4box::moof::MoofBox;
use re_mp4::mp4box::mfhd::MfhdBox;
use re_mp4::mp4box::moov::MoovBox;
use re_mp4::mp4box::mvex::MvexBox;
use re_mp4::mp4box::tfdt::TfdtBox;
use re_mp4::mp4box::tfhd::TfhdBox;
use re_mp4::mp4box::traf::TrafBox;
use re_mp4::mp4box::trex::TrexBox;
use re_mp4::mp4box::trun::TrunBox;
use re_mp4::reader::{merge_traf, update_sample_list, Track};

fn empty_track(track_id: u32) -> Track {
    Track {
        first_traf_merged: false,
        width: 0,
        height: 0,
        track_id,
        timescale: 1000,
        duration: 0,
        kind: None,
        samples: Vec::new(),
        data: Vec::new(),
    }
}

fn plain_tfhd(track_id: u32) -> TfhdBox {
    TfhdBox {
        version: 0,
        flags: 0,
        track_id,
        base_data_offset: None,
        sample_description_index: None,
        default_sample_duration: None,
        default_sample_size: None,
        default_sample_flags: None,
    }
}

fn data_offset_trun(sample_count: u32, data_offset: i32) -> TrunBox {
    TrunBox {
        version: 0,
        flags: TrunBox::FLAG_DATA_OFFSET,
        sample_count,
        data_offset: Some(data_offset),
        first_sample_flags: None,
        sample_durations: Vec::new(),
        sample_sizes: Vec::new(),
        sample_flags: Vec::new(),
        sample_cts: Vec::new(),
    }
}

/// Extends-defaults give every run sample its duration and size, and the
/// first sample of the fragment resolves against the fragment start plus
/// the run's data offset, with contiguous packing after it.
#[test]
fn fragment_defaults_and_offsets() {
    let trex = TrexBox {
        version: 0,
        flags: 0,
        track_id: 1,
        default_sample_description_index: 1,
        default_sample_duration: 512,
        default_sample_size: 10,
        default_sample_flags: 0,
    };
    let traf = TrafBox {
        tfhd: plain_tfhd(1),
        tfdt: None,
        truns: vec![data_offset_trun(2, 96)],
    };
    let moof_start: u64 = 4000;
    let (track, last_run_position) =
        merge_traf(empty_track(1), &trex, &traf, moof_start, 0).expect("merge succeeds");
    assert_eq!(track.samples.len(), 2);
    assert_eq!(track.samples[0].duration, 512);
    assert_eq!(track.samples[1].duration, 512);
    assert_eq!(track.samples[0].size, 10);
    assert_eq!(track.samples[1].size, 10);
    // no base offset, no default-base-is-moof, first sample of the
    // fragment: fragment start plus the run data offset
    assert_eq!(track.samples[0].offset, 4096);
    // contiguous packing for the second sample
    assert_eq!(track.samples[1].offset, 4106);
    assert_eq!(last_run_position, 4116);
    // no base decode time: the timeline starts at zero
    assert_eq!(track.samples[0].decode_timestamp, 0);
    assert_eq!(track.samples[1].decode_timestamp, 512);
}

/// An explicit base data offset wins over the fragment start.
#[test]
fn explicit_base_data_offset_wins() {
    let trex = TrexBox {
        version: 0,
        flags: 0,
        track_id: 1,
        default_sample_description_index: 1,
        default_sample_duration: 100,
        default_sample_size: 7,
        default_sample_flags: 0,
    };
    let tfhd = TfhdBox {
        flags: TfhdBox::FLAG_BASE_DATA_OFFSET,
        base_data_offset: Some(90000),
        ..plain_tfhd(1)
    };
    let traf = TrafBox { tfhd, tfdt: None, truns: vec![data_offset_trun(1, 16)] };
    let (track, _) = merge_traf(empty_track(1), &trex, &traf, 4000, 0).expect("merge succeeds");
    assert_eq!(track.samples[0].offset, 90016);
}

/// Under "default-base-is-moof" the base is the fragment start even for
/// later samples of the fragment.
#[test]
fn default_base_is_moof_uses_fragment_start() {
    let trex = TrexBox {
        version: 0,
        flags: 0,
        track_id: 1,
        default_sample_description_index: 1,
        default_sample_duration: 100,
        default_sample_size: 7,
        default_sample_flags: 0,
    };
    let tfhd = TfhdBox { flags: TfhdBox::FLAG_DEFAULT_BASE_IS_MOOF, ..plain_tfhd(1) };
    let traf = TrafBox { tfhd, tfdt: None, truns: vec![data_offset_trun(1, 8)] };
    let (track, _) = merge_traf(empty_track(1), &trex, &traf, 5000, 1234).expect("merge succeeds");
    assert_eq!(track.samples[0].offset, 5008);
}

/// A base decode time starts the track's fragment timeline.
#[test]
fn base_decode_time_starts_the_timeline() {
    let trex = TrexBox {
        version: 0,
        flags: 0,
        track_id: 1,
        default_sample_description_index: 1,
        default_sample_duration: 100,
        default_sample_size: 7,
        default_sample_flags: 0,
    };
    let traf = TrafBox {
        tfhd: plain_tfhd(1),
        tfdt: Some(TfdtBox { version: 0, flags: 0, base_media_decode_time: 7700 }),
        truns: vec![data_offset_trun(2, 8)],
    };
    let (track, _) = merge_traf(empty_track(1), &trex, &traf, 0, 0).expect("merge succeeds");
    assert_eq!(track.samples[0].decode_timestamp, 7700);
    assert_eq!(track.samples[1].decode_timestamp, 7800);
}

/// Two consecutive fragments on the same track: the second, without a base
/// decode time, continues exactly where the first ended.
#[test]
fn fragment_continuity_across_two_fragments() {
    let trex = TrexBox {
        version: 0,
        flags: 0,
        track_id: 1,
        default_sample_description_index: 1,
        default_sample_duration: 512,
        default_sample_size: 10,
        default_sample_flags: 0,
    };
    let moov = MoovBox {
        mvhd: minimal_mvhd(),
        meta: None,
        mvex: Some(MvexBox { mehd: None, trexs: vec![trex] }),
        traks: Vec::new(),
        udta: None,
    };
    let moofs = vec![
        MoofBox {
            start: 1000,
            mfhd: MfhdBox { version: 0, flags: 0, sequence_number: 1 },
            trafs: vec![TrafBox {
                tfhd: plain_tfhd(1),
                tfdt: None,
                truns: vec![data_offset_trun(2, 8)],
            }],
        },
        MoofBox {
            start: 2000,
            mfhd: MfhdBox { version: 0, flags: 0, sequence_number: 2 },
            trafs: vec![TrafBox {
                tfhd: plain_tfhd(1),
                tfdt: None,
                truns: vec![data_offset_trun(2, 8)],
            }],
        },
    ];
    let tracks = vec![empty_track(1)];
    let tracks = update_sample_list(&moov, &moofs, tracks).expect("merge succeeds");
    let samples = &tracks[0].samples;
    assert_eq!(samples.len(), 4);
    // the first fragment's last sample ends at 512 + 512
    assert_eq!(samples[1].decode_timestamp + samples[1].duration, 1024);
    // the second fragment's first sample starts exactly there
    assert_eq!(samples[2].decode_timestamp, 1024);
    // and decode timestamps never decrease
    let dts: Vec<u64> = samples.iter().map(|s| s.decode_timestamp).collect();
    let mut sorted = dts.clone();
    sorted.sort();
    assert_eq!(dts, sorted);
}

/// A fragment that references a track the movie does not declare is a
/// fatal error, not silently ignored.
#[test]
fn unknown_track_reference_is_fatal() {
    let moov = MoovBox {
        mvhd: minimal_mvhd(),
        meta: None,
        mvex: None,
        traks: Vec::new(),
        udta: None,
    };
    let moofs = vec![MoofBox {
        start: 0,
        mfhd: MfhdBox { version: 0, flags: 0, sequence_number: 1 },
        trafs: vec![TrafBox { tfhd: plain_tfhd(9), tfdt: None, truns: Vec::new() }],
    }];
    let tracks = vec![empty_track(1)];
    let r = update_sample_list(&moov, &moofs, tracks);
    assert!(matches!(r, Err(Error::UnresolvedTrackReference(9))));
}

/// The sync flag comes from bit 16 of the resolved sample flags.
#[test]
fn sync_flag_from_sample_flags_bit() {
    let trex = TrexBox {
        version: 0,
        flags: 0,
        track_id: 1,
        default_sample_description_index: 1,
        default_sample_duration: 512,
        default_sample_size: 10,
        // bit 16 set means "sample is not a sync sample" is clear here:
        // the reader reports bit 16 directly
        default_sample_flags: 0x10000,
    };
    let traf = TrafBox { tfhd: plain_tfhd(1), tfdt: None, truns: vec![data_offset_trun(1, 8)] };
    let (track, _) = merge_traf(empty_track(1), &trex, &traf, 0, 0).expect("merge succeeds");
    assert!(track.samples[0].is_sync);
}

fn minimal_mvhd() -> re_mp4::mp4box::mvhd::MvhdBox {
    re_mp4::mp4box::mvhd::MvhdBox {
        version: 0,
        flags: 0,
        creation_time: 0,
        modification_time: 0,
        timescale: 1000,
        duration: 0,
        rate: re_mp4::types::FixedPointU16::new(1),
        volume: re_mp4::types::FixedPointU8::new(1),
        matrix: re_mp4::mp4box::tkhd::Matrix::identity(),
        next_track_id: 2,
    }
}

// --- end-to-end: a fragmented file from raw bytes ---

fn boxed(name: &[u8; 4], payload: &[u8]) -> Vec<u8> {
    let mut out = Vec::new();
    out.extend_from_slice(&(payload.len() as u32 + 8).to_be_bytes());
    out.extend_from_slice(name);
    out.extend_from_slice(payload);
    out
}

fn full_box(name: &[u8; 4], version: u8, flags: u32, payload: &[u8]) -> Vec<u8> {
    let mut body = vec![version];
    body.extend_from_slice(&flags.to_be_bytes()[1..4]);
    body.extend_from_slice(payload);
    boxed(name, &body)
}

fn fragmented_file() -> Vec<u8> {
    let mut ftyp_p = Vec::new();
    ftyp_p.extend_from_slice(b"isom");
    ftyp_p.extend_from_slice(&0u32.to_be_bytes());
    let ftyp = boxed(b"ftyp", &ftyp_p);

    // movie header
    let mut mvhd_p = Vec::new();
    mvhd_p.extend_from_slice(&[0u8; 8]); // times
    mvhd_p.extend_from_slice(&1000u32.to_be_bytes()); // timescale
    mvhd_p.extend_from_slice(&0u32.to_be_bytes()); // duration (filled by fragments)
    mvhd_p.extend_from_slice(&0x00010000u32.to_be_bytes());
    mvhd_p.extend_from_slice(&0x0100u16.to_be_bytes());
    mvhd_p.extend_from_slice(&[0u8; 10]);
    for v in [0x00010000u32, 0, 0, 0, 0x00010000, 0, 0, 0, 0x40000000] {
        mvhd_p.extend_from_slice(&v.to_be_bytes());
    }
    mvhd_p.extend_from_slice(&[0u8; 24]);
    mvhd_p.extend_from_slice(&2u32.to_be_bytes());
    let mvhd = full_box(b"mvhd", 0, 0, &mvhd_p);

    // a track with empty sample tables: its samples come from fragments
    let mut tkhd_p = Vec::new();
    tkhd_p.extend_from_slice(&[0u8; 8]);
    tkhd_p.extend_from_slice(&1u32.to_be_bytes()); // track id
    tkhd_p.extend_from_slice(&[0u8; 8]); // reserved + duration
    tkhd_p.extend_from_slice(&[0u8; 16]);
    for v in [0x00010000u32, 0, 0, 0, 0x00010000, 0, 0, 0, 0x40000000] {
        tkhd_p.extend_from_slice(&v.to_be_bytes());
    }
    tkhd_p.extend_from_slice(&0u32.to_be_bytes()); // width
    tkhd_p.extend_from_slice(&0u32.to_be_bytes()); // height
    let tkhd = full_box(b"tkhd", 0, 1, &tkhd_p);

    let mut mdhd_p = Vec::new();
    mdhd_p.extend_from_slice(&[0u8; 8]);
    mdhd_p.extend_from_slice(&1000u32.to_be_bytes());
    mdhd_p.extend_from_slice(&0u32.to_be_bytes());
    mdhd_p.extend_from_slice(&0x55C4u16.to_be_bytes());
    mdhd_p.extend_from_slice(&[0u8; 2]);
    let mdhd = full_box(b"mdhd", 0, 0, &mdhd_p);

    let mut hdlr_p = Vec::new();
    hdlr_p.extend_from_slice(&0u32.to_be_bytes());
    hdlr_p.extend_from_slice(b"vide");
    hdlr_p.extend_from_slice(&[0u8; 12]);
    hdlr_p.extend_from_slice(b"\0");
    let hdlr = full_box(b"hdlr", 0, 0, &hdlr_p);

    let mut stsd_p = Vec::new();
    stsd_p.extend_from_slice(&1u32.to_be_bytes());
    stsd_p.extend_from_slice(&boxed(b"abcd", &[])); // an unrecognized codec entry
    let stsd = full_box(b"stsd", 0, 0, &stsd_p);
    let stts = full_box(b"stts", 0, 0, &0u32.to_be_bytes());
    let stsc = full_box(b"stsc", 0, 0, &0u32.to_be_bytes());
    let mut stsz_p = Vec::new();
    stsz_p.extend_from_slice(&0u32.to_be_bytes());
    stsz_p.extend_from_slice(&0u32.to_be_bytes());
    let stsz = full_box(b"stsz", 0, 0, &stsz_p);

    let mut stbl_p = Vec::new();
    for b in [&stsd, &stts, &stsc, &stsz] {
        stbl_p.extend_from_slice(b);
    }
    let stbl = boxed(b"stbl", &stbl_p);
    let minf = boxed(b"minf", &stbl);
    let mut mdia_p = Vec::new();
    mdia_p.extend_from_slice(&mdhd);
    mdia_p.extend_from_slice(&hdlr);
    mdia_p.extend_from_slice(&minf);
    let mdia = boxed(b"mdia", &mdia_p);
    let mut trak_p = Vec::new();
    trak_p.extend_from_slice(&tkhd);
    trak_p.extend_from_slice(&mdia);
    let trak = boxed(b"trak", &trak_p);

    // movie-level extends-defaults: duration 512, size 10 for track 1
    let mut trex_p = Vec::new();
    trex_p.extend_from_slice(&1u32.to_be_bytes()); // track id
    trex_p.extend_from_slice(&1u32.to_be_bytes()); // description index
    trex_p.extend_from_slice(&512u32.to_be_bytes()); // duration
    trex_p.extend_from_slice(&10u32.to_be_bytes()); // size
    trex_p.extend_from_slice(&0u32.to_be_bytes()); // flags
    let trex = full_box(b"trex", 0, 0, &trex_p);
    let mvex = boxed(b"mvex", &trex);

    let mut moov_p = Vec::new();
    moov_p.extend_from_slice(&mvhd);
    moov_p.extend_from_slice(&mvex);
    moov_p.extend_from_slice(&trak);
    let moov = boxed(b"moov", &moov_p);

    // the fragment: header, one track fragment, one run of two samples
    let mfhd = full_box(b"mfhd", 0, 0, &1u32.to_be_bytes());
    let tfhd = full_box(b"tfhd", 0, 0, &1u32.to_be_bytes());
    let mut trun_p = Vec::new();
    trun_p.extend_from_slice(&2u32.to_be_bytes()); // sample count
    trun_p.extend_from_slice(&0u32.to_be_bytes()); // data offset, patched below
    let trun = full_box(b"trun", 0, 0x01, &trun_p);
    let mut traf_p = Vec::new();
    traf_p.extend_from_slice(&tfhd);
    traf_p.extend_from_slice(&trun);
    let traf = boxed(b"traf", &traf_p);
    let mut moof_p = Vec::new();
    moof_p.extend_from_slice(&mfhd);
    moof_p.extend_from_slice(&traf);
    let mut moof = boxed(b"moof", &moof_p);
    // the run's data offset is relative to the fragment start: point it at
    // the mdat payload just after this moof
    let data_offset = (moof.len() as u32 + 8).to_be_bytes();
    let pos = moof.len() - 4;
    moof[pos..].copy_from_slice(&data_offset);

    let mut mdat_payload = Vec::new();
    for i in 0..20u8 {
        mdat_payload.push(i);
    }
    let mdat = boxed(b"mdat", &mdat_payload);

    let mut file = Vec::new();
    file.extend_from_slice(&ftyp);
    file.extend_from_slice(&moov);
    file.extend_from_slice(&moof);
    file.extend_from_slice(&mdat);
    file
}

/// A fragmented file, end to end: empty flat tables, extends-defaults
/// applied, offsets resolved against the fragment start, and the track
/// duration recomputed from the final sample.
#[test]
fn fragmented_file_reconstructs_samples() {
    let file = fragmented_file();
    let mp4 = re_mp4::read(&file).expect("fragmented file parses");
    let track = mp4.track_by_id(1).expect("track 1 exists");
    assert_eq!(track.samples.len(), 2);
    assert_eq!(track.samples[0].duration, 512);
    assert_eq!(track.samples[1].duration, 512);
    assert_eq!(track.samples[0].size, 10);
    assert_eq!(track.samples[0].decode_timestamp, 0);
    assert_eq!(track.samples[1].decode_timestamp, 512);
    // materialized contiguously from the mdat payload
    assert_eq!(track.samples[0].offset, 0);
    assert_eq!(track.samples[1].offset, 10);
    assert_eq!(track.data, (0..20u8).collect::<Vec<u8>>());
    // a zero track duration is recomputed from the final sample
    assert_eq!(track.duration, 1024);
}


/// A later run that carries its own data-offset field resolves its first
/// sample against the base data offset (or the fragment start), not
/// against contiguous packing.
#[test]
fn second_run_data_offset_resolves_against_base() {
    let trex = TrexBox {
        version: 0,
        flags: 0,
        track_id: 1,
        default_sample_description_index: 1,
        default_sample_duration: 100,
        default_sample_size: 7,
        default_sample_flags: 0,
    };
    let tfhd = TfhdBox {
        flags: TfhdBox::FLAG_BASE_DATA_OFFSET,
        base_data_offset: Some(50000),
        ..plain_tfhd(1)
    };
    let traf = TrafBox {
        tfhd,
        tfdt: None,
        truns: vec![data_offset_trun(2, 16), data_offset_trun(2, 600)],
    };
    let (track, _) = merge_traf(empty_track(1), &trex, &traf, 4000, 0).expect("merge succeeds");
    assert_eq!(track.samples.len(), 4);
    // first run: base + its data offset, then contiguous
    assert_eq!(track.samples[0].offset, 50016);
    assert_eq!(track.samples[1].offset, 50023);
    // second run: base + its own data offset, then contiguous again
    assert_eq!(track.samples[2].offset, 50600);
    assert_eq!(track.samples[3].offset, 50607);
}

/// A later run without a data-offset field continues contiguously after
/// the previous run.
#[test]
fn second_run_without_data_offset_packs_contiguously() {
    let trex = TrexBox {
        version: 0,
        flags: 0,
        track_id: 1,
        default_sample_description_index: 1,
        default_sample_duration: 100,
        default_sample_size: 7,
        default_sample_flags: 0,
    };
    let plain_run = TrunBox {
        version: 0,
        flags: 0,
        sample_count: 1,
        data_offset: None,
        first_sample_flags: None,
        sample_durations: Vec::new(),
        sample_sizes: Vec::new(),
        sample_flags: Vec::new(),
        sample_cts: Vec::new(),
    };
    let traf = TrafBox {
        tfhd: plain_tfhd(1),
        tfdt: None,
        truns: vec![data_offset_trun(1, 16), plain_run],
    };
    let (track, _) = merge_traf(empty_track(1), &trex, &traf, 4000, 0).expect("merge succeeds");
    assert_eq!(track.samples[0].offset, 4016);
    assert_eq!(track.samples[1].offset, 4023);
}

/// A top-level box with a 64-bit size escape occupies sixteen header bytes
/// plus its payload; the scan must resume at its true end, not eight bytes
/// short of it.
#[test]
fn large_size_box_scans_to_its_true_end() {
    let file = fragmented_file();
    let mut out = Vec::new();
    out.extend_from_slice(&1u32.to_be_bytes());
    out.extend_from_slice(b"free");
    out.extend_from_slice(&24u64.to_be_bytes());
    out.extend_from_slice(&[0u8; 8]);
    out.extend_from_slice(&file);
    let mp4 = re_mp4::read(&out).expect("file behind an escape-size box parses");
    let track = mp4.track_by_id(1).expect("track 1 exists");
    assert_eq!(track.samples.len(), 2);
    assert_eq!(track.data, (0..20u8).collect::<Vec<u8>>());
}

/// A fragment whose own header uses the 64-bit size escape records the
/// first byte of that header as its start, and its runs resolve against
/// it.
#[test]
fn large_size_moof_records_its_true_start() {
    let file = fragmented_file();
    let ftyp_len = u32::from_be_bytes(file[0..4].try_into().unwrap()) as usize;
    let moov_len = u32::from_be_bytes(file[ftyp_len..ftyp_len + 4].try_into().unwrap()) as usize;
    let moof_off = ftyp_len + moov_len;
    let moof_len =
        u32::from_be_bytes(file[moof_off..moof_off + 4].try_into().unwrap()) as usize;
    let mut out = file[..moof_off].to_vec();
    out.extend_from_slice(&1u32.to_be_bytes());
    out.extend_from_slice(b"moof");
    out.extend_from_slice(&((moof_len + 8) as u64).to_be_bytes());
    out.extend_from_slice(&file[moof_off + 8..moof_off + moof_len]);
    // the run's data offset is relative to the fragment start; the mdat
    // payload now lies eight bytes further along
    let patched = ((moof_len + 16) as u32).to_be_bytes();
    let pos = out.len() - 4;
    out[pos..].copy_from_slice(&patched);
    out.extend_from_slice(&file[moof_off + moof_len..]);
    let mp4 = re_mp4::read(&out).expect("escape-size fragment parses");
    assert_eq!(mp4.moofs.len(), 1);
    assert_eq!(mp4.moofs[0].start, moof_off as u64);
    let track = mp4.track_by_id(1).expect("track 1 exists");
    assert_eq!(track.samples.len(), 2);
    assert_eq!(track.data, (0..20u8).collect::<Vec<u8>>());
}

/// The track's accessors reach back into the movie box: the `trak` box is
/// found by id, and an unrecognized codec entry yields no codec string and
/// no configuration record.
#[test]
fn track_accessors_follow_the_movie_box() {
    let file = fragmented_file();
    let mp4 = re_mp4::read(&file).expect("fragmented file parses");
    let track = mp4.track_by_id(1).expect("track 1 exists");
    let trak = track.trak(&mp4).expect("the movie still holds the trak box");
    assert_eq!(trak.tkhd.track_id, 1);
    assert!(track.raw_codec_config(&mp4).is_none());
    assert!(track.codec_string(&mp4).is_none());
}

/// A file whose fragment references a track id the movie does not declare
/// is rejected, never silently ignored.
#[test]
fn unknown_track_reference_is_rejected() {
    let track = empty_track(1);
    let moov = MoovBox {
        mvhd: minimal_mvhd(),
        meta: None,
        mvex: None,
        traks: Vec::new(),
        udta: None,
    };
    let moof = MoofBox {
        start: 0,
        mfhd: MfhdBox { version: 0, flags: 0, sequence_number: 1 },
        trafs: vec![TrafBox { tfhd: plain_tfhd(7), tfdt: None, truns: Vec::new() }],
    };
    match update_sample_list(&moov, &vec![moof], vec![track]) {
        Err(Error::UnresolvedTrackReference(id)) => assert_eq!(id, 7),
        other => panic!("expected an unresolved track reference, got {other:?}"),
    }
}

/// A movie that declares extends-defaults but lacks the record for a
/// referenced track is rejected.
#[test]
fn missing_trex_for_referenced_track_is_rejected() {
    let track = empty_track(1);
    let moov = MoovBox {
        mvhd: minimal_mvhd(),
        meta: None,
        mvex: Some(MvexBox { mehd: None, trexs: Vec::new() }),
        traks: Vec::new(),
        udta: None,
    };
    let moof = MoofBox {
        start: 0,
        mfhd: MfhdBox { version: 0, flags: 0, sequence_number: 1 },
        trafs: vec![TrafBox { tfhd: plain_tfhd(1), tfdt: None, truns: Vec::new() }],
    };
    match update_sample_list(&moov, &vec![moof], vec![track]) {
        Err(Error::MissingRequiredBox(bt)) => {
            assert_eq!(bt, re_mp4::mp4box::BoxType::TrexBox);
        },
        other => panic!("expected a missing track-extends record, got {other:?}"),
    }
}

/// A stream without a movie box is rejected as missing `moov`; one without
/// a file-type box as missing `ftyp`.
#[test]
fn missing_top_level_boxes_are_named() {
    let file = fragmented_file();
    let ftyp_len = u32::from_be_bytes(file[0..4].try_into().unwrap()) as usize;
    let moov_len = u32::from_be_bytes(file[ftyp_len..ftyp_len + 4].try_into().unwrap()) as usize;
    let ftyp_only = &file[..ftyp_len];
    match re_mp4::read(ftyp_only) {
        Err(Error::MissingRequiredBox(bt)) => {
            assert_eq!(bt, re_mp4::mp4box::BoxType::MoovBox);
        },
        other => panic!("expected a missing moov, got {other:?}"),
    }
    let moov_only = &file[ftyp_len..ftyp_len + moov_len];
    match re_mp4::read(moov_only) {
        Err(Error::MissingRequiredBox(bt)) => {
            assert_eq!(bt, re_mp4::mp4box::BoxType::FtypBox);
        },
        other => panic!("expected a missing ftyp, got {other:?}"),
    }
}
