//! End-to-end reconstruction of a flat (non-fragmented) movie, and the
//! malformed-table failure paths.

use re_mp4::error::Error;
use re_mp4::mp4box::stts::SttsBox;
use re_mp4::mp4box::ReadBox;

fn boxed(name: &[u8; 4], payload: &[u8]) -> Vec<u8> {
    let mut out = Vec::new();
    out.extend_from_slice(&(payload.len() as u32 + 8).to_be_bytes());
    out.extend_from_slice(name);
    out.extend_from_slice(payload);
    out
}

fn full_box(name: &[u8; 4], version: u8, flags: u32, payload: &[u8]) -> Vec<u8> {
    let mut body = Vec::new();
    body.push(version);
    body.extend_from_slice(&flags.to_be_bytes()[1..4]);
    body.extend_from_slice(payload);
    boxed(name, &body)
}

fn mvhd() -> Vec<u8> {
    let mut p = Vec::new();
    p.extend_from_slice(&0u32.to_be_bytes()); // creation
    p.extend_from_slice(&0u32.to_be_bytes()); // modification
    p.extend_from_slice(&1000u32.to_be_bytes()); // timescale
    p.extend_from_slice(&3000u32.to_be_bytes()); // duration
    p.extend_from_slice(&0x00010000u32.to_be_bytes()); // rate
    p.extend_from_slice(&0x0100u16.to_be_bytes()); // volume
    p.extend_from_slice(&[0u8; 2]); // reserved
    p.extend_from_slice(&[0u8; 8]); // reserved
    for v in [0x00010000u32, 0, 0, 0, 0x00010000, 0, 0, 0, 0x40000000] {
        p.extend_from_slice(&v.to_be_bytes());
    }
    p.extend_from_slice(&[0u8; 24]); // pre-defined
    p.extend_from_slice(&1u32.to_be_bytes()); // next track id
    full_box(b"mvhd", 0, 0, &p)
}

fn tkhd(track_id: u32) -> Vec<u8> {
    let mut p = Vec::new();
    p.extend_from_slice(&0u32.to_be_bytes()); // creation
    p.extend_from_slice(&0u32.to_be_bytes()); // modification
    p.extend_from_slice(&track_id.to_be_bytes());
    p.extend_from_slice(&0u32.to_be_bytes()); // reserved
    p.extend_from_slice(&3000u32.to_be_bytes()); // duration
    p.extend_from_slice(&[0u8; 8]); // reserved
    p.extend_from_slice(&0u16.to_be_bytes()); // layer
    p.extend_from_slice(&0u16.to_be_bytes()); // alternate group
    p.extend_from_slice(&0u16.to_be_bytes()); // volume
    p.extend_from_slice(&[0u8; 2]); // reserved
    for v in [0x00010000u32, 0, 0, 0, 0x00010000, 0, 0, 0, 0x40000000] {
        p.extend_from_slice(&v.to_be_bytes());
    }
    p.extend_from_slice(&(640u32 << 16).to_be_bytes()); // width
    p.extend_from_slice(&(480u32 << 16).to_be_bytes()); // height
    full_box(b"tkhd", 0, 1, &p)
}

fn mdhd() -> Vec<u8> {
    let mut p = Vec::new();
    p.extend_from_slice(&0u32.to_be_bytes()); // creation
    p.extend_from_slice(&0u32.to_be_bytes()); // modification
    p.extend_from_slice(&1000u32.to_be_bytes()); // timescale
    p.extend_from_slice(&3000u32.to_be_bytes()); // duration
    p.extend_from_slice(&0x55C4u16.to_be_bytes()); // language "und"
    p.extend_from_slice(&[0u8; 2]); // pre-defined
    full_box(b"mdhd", 0, 0, &p)
}

fn hdlr() -> Vec<u8> {
    let mut p = Vec::new();
    p.extend_from_slice(&0u32.to_be_bytes()); // pre-defined
    p.extend_from_slice(b"vide");
    p.extend_from_slice(&[0u8; 12]); // reserved
    p.extend_from_slice(b"v\0");
    full_box(b"hdlr", 0, 0, &p)
}

fn stbl(chunk_offset: u32, sizes: &[u32]) -> Vec<u8> {
    let mut stsd_p = Vec::new();
    stsd_p.extend_from_slice(&1u32.to_be_bytes()); // entry count
    stsd_p.extend_from_slice(&boxed(b"abcd", &[])); // an unrecognized codec entry
    let stsd = full_box(b"stsd", 0, 0, &stsd_p);

    let mut stts_p = Vec::new();
    stts_p.extend_from_slice(&1u32.to_be_bytes());
    stts_p.extend_from_slice(&(sizes.len() as u32).to_be_bytes()); // sample count
    stts_p.extend_from_slice(&1000u32.to_be_bytes()); // delta
    let stts = full_box(b"stts", 0, 0, &stts_p);

    let mut stsc_p = Vec::new();
    stsc_p.extend_from_slice(&1u32.to_be_bytes());
    stsc_p.extend_from_slice(&1u32.to_be_bytes()); // first chunk
    stsc_p.extend_from_slice(&(sizes.len() as u32).to_be_bytes()); // samples per chunk
    stsc_p.extend_from_slice(&1u32.to_be_bytes()); // sample description index
    let stsc = full_box(b"stsc", 0, 0, &stsc_p);

    let mut stsz_p = Vec::new();
    stsz_p.extend_from_slice(&0u32.to_be_bytes()); // per-sample sizes follow
    stsz_p.extend_from_slice(&(sizes.len() as u32).to_be_bytes());
    for s in sizes {
        stsz_p.extend_from_slice(&s.to_be_bytes());
    }
    let stsz = full_box(b"stsz", 0, 0, &stsz_p);

    let mut stco_p = Vec::new();
    stco_p.extend_from_slice(&1u32.to_be_bytes());
    stco_p.extend_from_slice(&chunk_offset.to_be_bytes());
    let stco = full_box(b"stco", 0, 0, &stco_p);

    let mut p = Vec::new();
    p.extend_from_slice(&stsd);
    p.extend_from_slice(&stts);
    p.extend_from_slice(&stsc);
    p.extend_from_slice(&stsz);
    p.extend_from_slice(&stco);
    boxed(b"stbl", &p)
}

fn flat_file(sizes: &[u32]) -> Vec<u8> {
    // the chunk offset depends on the moov size, which does not depend on it
    let probe = build_flat(0, sizes);
    let mdat_payload_offset = probe.len() as u32 + 8;
    let mut file = build_flat(mdat_payload_offset, sizes);
    let total: u32 = sizes.iter().sum();
    let mut mdat_payload = Vec::new();
    for i in 0..total {
        mdat_payload.push(i as u8);
    }
    file.extend_from_slice(&boxed(b"mdat", &mdat_payload));
    file
}

fn build_flat(chunk_offset: u32, sizes: &[u32]) -> Vec<u8> {
    let mut ftyp_p = Vec::new();
    ftyp_p.extend_from_slice(b"isom");
    ftyp_p.extend_from_slice(&0u32.to_be_bytes());
    let ftyp = boxed(b"ftyp", &ftyp_p);

    let mut minf_p = Vec::new();
    minf_p.extend_from_slice(&stbl(chunk_offset, sizes));
    let minf = boxed(b"minf", &minf_p);

    let mut mdia_p = Vec::new();
    mdia_p.extend_from_slice(&mdhd());
    mdia_p.extend_from_slice(&hdlr());
    mdia_p.extend_from_slice(&minf);
    let mdia = boxed(b"mdia", &mdia_p);

    let mut trak_p = Vec::new();
    trak_p.extend_from_slice(&tkhd(1));
    trak_p.extend_from_slice(&mdia);
    let trak = boxed(b"trak", &trak_p);

    let mut moov_p = Vec::new();
    moov_p.extend_from_slice(&mvhd());
    moov_p.extend_from_slice(&trak);
    let moov = boxed(b"moov", &moov_p);

    let mut file = Vec::new();
    file.extend_from_slice(&ftyp);
    file.extend_from_slice(&moov);
    file
}

#[test]
fn flat_single_chunk_three_samples() {
    let file = flat_file(&[100, 200, 150]);
    let mp4 = re_mp4::read(&file).expect("flat file parses");
    assert_eq!(mp4.tracks().len(), 1);
    let track = mp4.track_by_id(1).expect("track 1 exists");
    assert_eq!(track.timescale, 1000);
    assert_eq!(track.duration, 3000);
    assert_eq!(track.width, 640);
    assert_eq!(track.height, 480);
    assert_eq!(track.samples.len(), 3);
    let dts: Vec<u64> = track.samples.iter().map(|s| s.decode_timestamp).collect();
    assert_eq!(dts, vec![0, 1000, 2000]);
    let durations: Vec<u64> = track.samples.iter().map(|s| s.duration).collect();
    assert_eq!(durations, vec![1000, 1000, 1000]);
    let sizes: Vec<u64> = track.samples.iter().map(|s| s.size).collect();
    assert_eq!(sizes, vec![100, 200, 150]);
    // materialized: buffer-relative offsets, contiguous
    let offsets: Vec<u64> = track.samples.iter().map(|s| s.offset).collect();
    assert_eq!(offsets, vec![0, 100, 300]);
    assert_eq!(track.data.len(), 450);
    // composition equals decode when no composition table exists
    for s in &track.samples {
        assert_eq!(s.composition_timestamp, s.decode_timestamp);
    }
    // the sample bytes come from the single chunk, in order
    let first = track.read_sample(0).expect("sample 0 readable");
    assert_eq!(first.len(), 100);
    assert_eq!(first[0], 0);
    let last = track.read_sample(2).expect("sample 2 readable");
    assert_eq!(last.len(), 150);
    assert_eq!(last[0], 300u32 as u8);
    assert!(track.read_sample(3).is_none());
}

#[test]
fn track_without_sync_table_is_all_sync() {
    let file = flat_file(&[100, 200, 150]);
    let mp4 = re_mp4::read(&file).expect("flat file parses");
    let track = mp4.track_by_id(1).expect("track 1 exists");
    assert!(track.samples.iter().all(|s| s.is_sync));
}

#[test]
fn sample_count_matches_size_table() {
    let file = flat_file(&[10, 10, 10]);
    let mp4 = re_mp4::read(&file).expect("flat file parses");
    let track = mp4.track_by_id(1).expect("track 1 exists");
    // the size table declared three samples and the chunk map holds them
    assert_eq!(track.samples.len(), 3);
}

#[test]
fn run_length_count_exceeding_box_size_is_malformed() {
    // an stts box whose declared size leaves room for no entries, with an
    // entry count claiming a hundred
    let mut bytes = Vec::new();
    bytes.extend_from_slice(&16u32.to_be_bytes());
    bytes.extend_from_slice(b"stts");
    bytes.extend_from_slice(&[0, 0, 0, 0]); // version + flags
    bytes.extend_from_slice(&100u32.to_be_bytes()); // entry count
    let mut pos: u64 = 8;
    let r = SttsBox::read_box(&bytes, &mut pos, 16);
    assert!(matches!(r, Err(Error::MalformedContainer(_))));
}

#[test]
fn missing_movie_box_is_reported() {
    let mut ftyp_p = Vec::new();
    ftyp_p.extend_from_slice(b"isom");
    ftyp_p.extend_from_slice(&0u32.to_be_bytes());
    let file = boxed(b"ftyp", &ftyp_p);
    let r = re_mp4::read(&file);
    assert!(matches!(r, Err(Error::MissingRequiredBox(_))));
}

#[test]
fn truncated_sample_data_is_an_io_error() {
    let mut file = flat_file(&[100, 200, 150]);
    // cut into the last sample's bytes: the boxes still parse, but
    // materializing the samples runs past the end of the data
    let n = file.len() - 10;
    file.truncate(n);
    let r = re_mp4::read(&file);
    assert!(matches!(r, Err(Error::Io)));
}

#[test]
fn truncated_movie_box_is_malformed() {
    let mut file = flat_file(&[100, 200, 150]);
    // the movie box now declares more bytes than the file holds
    file.truncate(40);
    let r = re_mp4::read(&file);
    assert!(matches!(r, Err(Error::MalformedContainer(_))));
}

#[test]
fn oversized_box_is_malformed() {
    let mut file = flat_file(&[100, 200, 150]);
    // declare the first box larger than the whole file
    let huge = (file.len() as u32 + 100).to_be_bytes();
    file[0] = huge[0];
    file[1] = huge[1];
    file[2] = huge[2];
    file[3] = huge[3];
    let r = re_mp4::read(&file);
    assert!(matches!(r, Err(Error::MalformedContainer(_))));
}

#[test]
fn constant_sample_size_table_counts_samples() {
    // a size table with one constant size still describes `sample_count`
    // samples
    let mut p = Vec::new();
    p.extend_from_slice(&25u32.to_be_bytes()); // constant size
    p.extend_from_slice(&4u32.to_be_bytes()); // sample count
    let b = {
        let mut body = vec![0u8, 0, 0, 0];
        body.extend_from_slice(&p);
        let mut out = Vec::new();
        out.extend_from_slice(&(body.len() as u32 + 8).to_be_bytes());
        out.extend_from_slice(b"stsz");
        out.extend_from_slice(&body);
        out
    };
    let mut pos: u64 = 8;
    let stsz = re_mp4::mp4box::stsz::StszBox::read_box(&b, &mut pos, b.len() as u64).unwrap();
    assert_eq!(stsz.sample_size, 25);
    assert_eq!(stsz.total_count(), 4);
    assert_eq!(stsz.size_of_sample(3), 25);
}

#[test]
fn language_code_unpacks_to_letters() {
    let s = re_mp4::mp4box::mdhd::language_string(0x55C4);
    assert_eq!(s, "und");
}

#[test]
fn creation_time_epoch_shift() {
    assert_eq!(re_mp4::types::creation_time(2082844800), 0);
    assert_eq!(re_mp4::types::creation_time(2082844800 + 5), 5);
    assert_eq!(re_mp4::types::creation_time(100), 100);
}

fn stbl_with_ctts_stss(chunk_offset: u32, sizes: &[u32]) -> Vec<u8> {
    // rebuild the plain table set, with a composition table and a sync list
    let plain = stbl(chunk_offset, sizes);
    let inner = &plain[8..];

    let mut ctts_p = Vec::new();
    ctts_p.extend_from_slice(&1u32.to_be_bytes());
    ctts_p.extend_from_slice(&(sizes.len() as u32).to_be_bytes());
    ctts_p.extend_from_slice(&10i32.to_be_bytes());
    let ctts = full_box(b"ctts", 0, 0, &ctts_p);

    let mut stss_p = Vec::new();
    stss_p.extend_from_slice(&2u32.to_be_bytes());
    stss_p.extend_from_slice(&1u32.to_be_bytes());
    stss_p.extend_from_slice(&3u32.to_be_bytes());
    let stss = full_box(b"stss", 0, 0, &stss_p);

    let mut p = Vec::new();
    p.extend_from_slice(inner);
    p.extend_from_slice(&ctts);
    p.extend_from_slice(&stss);
    boxed(b"stbl", &p)
}

fn flat_file_with_ctts_stss(sizes: &[u32]) -> Vec<u8> {
    let probe = build_flat_tables(&stbl_with_ctts_stss(0, sizes));
    let mdat_payload_offset = probe.len() as u32 + 8;
    let mut file = build_flat_tables(&stbl_with_ctts_stss(mdat_payload_offset, sizes));
    let total: u32 = sizes.iter().sum();
    let mut mdat_payload = Vec::new();
    for i in 0..total {
        mdat_payload.push(i as u8);
    }
    file.extend_from_slice(&boxed(b"mdat", &mdat_payload));
    file
}

fn build_flat_tables(stbl_bytes: &[u8]) -> Vec<u8> {
    let mut ftyp_p = Vec::new();
    ftyp_p.extend_from_slice(b"isom");
    ftyp_p.extend_from_slice(&0u32.to_be_bytes());
    let ftyp = boxed(b"ftyp", &ftyp_p);

    let minf = boxed(b"minf", stbl_bytes);
    let mut mdia_p = Vec::new();
    mdia_p.extend_from_slice(&mdhd());
    mdia_p.extend_from_slice(&hdlr());
    mdia_p.extend_from_slice(&minf);
    let mdia = boxed(b"mdia", &mdia_p);

    let mut trak_p = Vec::new();
    trak_p.extend_from_slice(&tkhd(1));
    trak_p.extend_from_slice(&mdia);
    let trak = boxed(b"trak", &trak_p);

    let mut moov_p = Vec::new();
    moov_p.extend_from_slice(&mvhd());
    moov_p.extend_from_slice(&trak);
    let moov = boxed(b"moov", &moov_p);

    let mut file = Vec::new();
    file.extend_from_slice(&ftyp);
    file.extend_from_slice(&moov);
    file
}

#[test]
fn composition_offsets_and_sync_list_apply() {
    let file = flat_file_with_ctts_stss(&[100, 200, 150]);
    let mp4 = re_mp4::read(&file).expect("flat file parses");
    let track = mp4.track_by_id(1).expect("track 1 exists");
    assert_eq!(track.samples.len(), 3);
    for s in &track.samples {
        assert_eq!(s.composition_timestamp, s.decode_timestamp + 10);
    }
    let sync: Vec<bool> = track.samples.iter().map(|s| s.is_sync).collect();
    assert_eq!(sync, vec![true, false, true]);
}

#[test]
fn declared_sizes_reconstruct_from_decoded_fields() {
    // for every fixed-layout box, the sum of its fields' widths plus the
    // header equals the size it was declared with in the file
    let file = flat_file(&[100, 200, 150]);
    let mp4 = re_mp4::read(&file).expect("flat file parses");
    assert_eq!(mp4.moov.mvhd.get_size(), 108);
    let trak = &mp4.moov.traks[0];
    assert_eq!(trak.tkhd.get_size(), 92);
    assert_eq!(trak.mdia.mdhd.get_size(), 32);
    let stbl = &trak.mdia.minf.stbl;
    assert_eq!(stbl.stts.get_size(), 24);
    assert_eq!(stbl.stsc.get_size(), 28);
    assert_eq!(stbl.stsz.get_size(), 32);
    assert_eq!(stbl.stco.as_ref().unwrap().get_size(), 20);
    assert_eq!(mp4.ftyp.get_size(), 16);
}
