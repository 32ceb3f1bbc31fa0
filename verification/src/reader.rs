//! The sample-timeline engine: rebuilding each track's ordered sample list
//! from the sample tables of a flat movie, extending it from movie
//! fragments, and materializing the sample bytes into one contiguous buffer
//! per track.

use crate::error::Error;
use crate::mp4box::ctts::CttsEntry;
use crate::mp4box::moof::MoofBox;
use crate::mp4box::moov::MoovBox;
use crate::mp4box::mvex::MvexBox;
use crate::mp4box::stbl::{stbl_chunk_count, stbl_chunk_offset, StblBox};
use crate::mp4box::stsc::StscEntry;
use crate::mp4box::stsz::{stsz_size_of, stsz_total};
use crate::mp4box::stts::SttsEntry;
use crate::mp4box::tfhd::TfhdBox;
use crate::mp4box::traf::TrafBox;
use crate::mp4box::trak::TrakBox;
use crate::mp4box::trex::TrexBox;
use crate::mp4box::trun::TrunBox;
use crate::mp4box::{BoxType, ReadBox};
use crate::types::TrackKind;
use vstd::prelude::*;

verus! {

/// One media access unit of a track: its position in the list, its byte
/// extent, its timing, and whether it is a random-access point.  Until the
/// track data is materialized, `offset` is an absolute file offset;
/// afterwards it indexes the track's own buffer.
#[derive(Debug, Clone, Copy, PartialEq, Eq, Structural)]
pub struct Sample {
    pub id: u32,
    pub is_sync: bool,
    pub size: u64,
    pub offset: u64,
    pub timescale: u64,
    pub decode_timestamp: u64,
    pub composition_timestamp: u64,
    pub duration: u64,
}

/// One track of the parsed movie: identity, presentation size, timing, the
/// ordered sample list, and (after materialization) the contiguous sample
/// bytes.
#[derive(Debug, Clone)]
pub struct Track {
    /// Whether a fragment has already appended this track's first sample;
    /// until then a track fragment's base decode time starts the timeline.
    pub first_traf_merged: bool,
    pub width: u16,
    pub height: u16,
    pub track_id: u32,
    pub timescale: u64,
    pub duration: u64,
    pub kind: Option<TrackKind>,
    pub samples: Vec<Sample>,
    pub data: Vec<u8>,
}

// --- The mathematical model of the flat sample tables. ---
/// Total number of samples the duration table covers.
pub open spec fn stts_total(entries: Seq<SttsEntry>) -> int
    decreases entries.len(),
{
    if entries.len() == 0 {
        0
    } else {
        entries[0].sample_count + stts_total(entries.drop_first())
    }
}

/// The duration of sample `n` under the run-length table: the delta of the
/// run that covers index `n`.
pub open spec fn stts_delta_of(entries: Seq<SttsEntry>, n: int) -> int
    decreases entries.len(),
{
    if entries.len() == 0 {
        0
    } else if n < entries[0].sample_count {
        entries[0].sample_delta as int
    } else {
        stts_delta_of(entries.drop_first(), n - entries[0].sample_count)
    }
}

/// The decode timestamp of sample `n`: the sum of the durations of all
/// earlier samples.
pub open spec fn flat_dts_of(entries: Seq<SttsEntry>, n: int) -> int
    decreases n,
{
    if n <= 0 {
        0
    } else {
        flat_dts_of(entries, n - 1) + stts_delta_of(entries, n - 1)
    }
}

/// Total number of samples the composition-offset table covers.
pub open spec fn ctts_total(entries: Seq<CttsEntry>) -> int
    decreases entries.len(),
{
    if entries.len() == 0 {
        0
    } else {
        entries[0].sample_count + ctts_total(entries.drop_first())
    }
}

/// The signed composition offset of sample `n` under the run-length table.
pub open spec fn ctts_offset_of(entries: Seq<CttsEntry>, n: int) -> int
    decreases entries.len(),
{
    if entries.len() == 0 {
        0
    } else if n < entries[0].sample_count {
        entries[0].sample_offset as int
    } else {
        ctts_offset_of(entries.drop_first(), n - entries[0].sample_count)
    }
}

/// Position of the sync-table cursor after the first `n` samples: the
/// cursor advances past an entry exactly when the entry equals the 1-based
/// number of a sample just processed.
pub open spec fn stss_ptr(entries: Seq<u32>, n: int) -> int
    decreases n,
{
    if n <= 0 {
        0
    } else {
        let p = stss_ptr(entries, n - 1);
        if p < entries.len() && entries[p] == n {
            p + 1
        } else {
            p
        }
    }
}

/// Whether sample `n` (0-based) is a sync sample under the table: the next
/// unconsumed entry matches its 1-based number.
pub open spec fn stss_sync_at(entries: Seq<u32>, n: int) -> bool {
    let p = stss_ptr(entries, n);
    p < entries.len() && entries[p] == n + 1
}

/// The chunk-map run covering 1-based chunk `c`, scanning forward from run
/// `i`: the last run whose first chunk is at or before `c`.
pub open spec fn stsc_run_from(entries: Seq<StscEntry>, c: int, i: int) -> int
    decreases entries.len() - i,
{
    if i + 1 < entries.len() && entries[i + 1].first_chunk <= c {
        stsc_run_from(entries, c, i + 1)
    } else {
        i
    }
}

/// Samples per chunk for 1-based chunk `c`.
pub open spec fn stsc_spc_of_chunk(entries: Seq<StscEntry>, c: int) -> int {
    entries[stsc_run_from(entries, c, 0)].samples_per_chunk as int
}

/// Cumulative sample count of chunks `1..=c`.
pub open spec fn chunk_cum(entries: Seq<StscEntry>, c: int) -> int
    decreases c,
{
    if c <= 0 {
        0
    } else {
        chunk_cum(entries, c - 1) + stsc_spc_of_chunk(entries, c)
    }
}

/// The 1-based chunk holding sample `n`: the first chunk, from `c` up to
/// the chunk-table limit `limit`, whose cumulative count exceeds `n`;
/// `limit + 1` when no chunk with a known offset holds it.
pub open spec fn flat_chunk_from(entries: Seq<StscEntry>, n: int, c: int, limit: int) -> int
    decreases (if c <= limit { limit + 1 - c } else { 0int }),
{
    if c > limit {
        limit + 1
    } else if n < chunk_cum(entries, c) {
        c
    } else {
        flat_chunk_from(entries, n, c + 1, limit)
    }
}

/// The 1-based chunk holding sample `n`.
pub open spec fn flat_chunk_of(entries: Seq<StscEntry>, n: int, limit: int) -> int {
    flat_chunk_from(entries, n, 1, limit)
}

/// The summed sizes of samples `a..b` under the size table.
pub open spec fn size_range_sum(stsz: &crate::mp4box::stsz::StszBox, a: int, b: int) -> int
    decreases b - a,
{
    if b <= a {
        0
    } else {
        size_range_sum(stsz, a, b - 1) + stsz_size_of(stsz, b - 1)
    }
}

/// What the flat builder promises of sample `n`'s byte offset: the offset
/// of its chunk plus the sizes of the samples before it in the same chunk.
pub open spec fn flat_offset_of(stbl: &StblBox, n: int) -> int {
    let c = flat_chunk_of(stbl.stsc.entries@, n, stbl_chunk_count(stbl));
    stbl_chunk_offset(stbl, c) + size_range_sum(
        &stbl.stsz,
        chunk_cum(stbl.stsc.entries@, c - 1),
        n,
    )
}

// --- Lemmas connecting the run-length cursors to the model. ---
/// Sum of the counts of duration runs `0..r`.
pub open spec fn stts_prefix(entries: Seq<SttsEntry>, r: int) -> int
    decreases r,
{
    if r <= 0 {
        0
    } else {
        stts_prefix(entries, r - 1) + entries[r - 1].sample_count
    }
}

/// A sample inside run `r`'s span takes that run's delta.
pub proof fn lemma_stts_lookup(entries: Seq<SttsEntry>, r: int, n: int)
    requires
        0 <= r < entries.len(),
        stts_prefix(entries, r) <= n < stts_prefix(entries, r) + entries[r].sample_count,
    ensures
        stts_delta_of(entries, n) == entries[r].sample_delta,
    decreases r,
{
    if r == 0 {
        assert(stts_delta_of(entries, n) == entries[0].sample_delta);
    } else {
        lemma_stts_prefix_drop(entries, r);
        assert(stts_prefix(entries, r) >= entries[0].sample_count) by {
            assert(stts_prefix(entries.drop_first(), r - 1) >= 0) by {
                lemma_stts_prefix_nonneg(entries.drop_first(), r - 1);
            }
        }
        lemma_stts_lookup(entries.drop_first(), r - 1, n - entries[0].sample_count);
        assert(entries.drop_first()[r - 1] == entries[r]);
    }
}

/// Prefix sums of run counts are never negative.
pub proof fn lemma_stts_prefix_nonneg(entries: Seq<SttsEntry>, r: int)
    ensures
        stts_prefix(entries, r) >= 0,
    decreases r,
{
    if r > 0 {
        lemma_stts_prefix_nonneg(entries, r - 1);
    }
}

/// A prefix sum over the tail, shifted by the head's count.
pub proof fn lemma_stts_prefix_drop(entries: Seq<SttsEntry>, r: int)
    requires
        1 <= r <= entries.len(),
    ensures
        stts_prefix(entries, r) == entries[0].sample_count + stts_prefix(
            entries.drop_first(),
            r - 1,
        ),
    decreases r,
{
    if r == 1 {
        assert(stts_prefix(entries, 1) == stts_prefix(entries, 0) + entries[0].sample_count);
        assert(stts_prefix(entries.drop_first(), 0) == 0);
    } else {
        lemma_stts_prefix_drop(entries, r - 1);
        assert(entries.drop_first()[r - 2] == entries[r - 1]);
        assert(stts_prefix(entries, r) == stts_prefix(entries, r - 1) + entries[r - 1].sample_count);
        assert(stts_prefix(entries.drop_first(), r - 1) == stts_prefix(entries.drop_first(), r - 2)
            + entries.drop_first()[r - 2].sample_count);
    }
}

/// Sum of the counts of composition runs `0..r`.
pub open spec fn ctts_prefix(entries: Seq<CttsEntry>, r: int) -> int
    decreases r,
{
    if r <= 0 {
        0
    } else {
        ctts_prefix(entries, r - 1) + entries[r - 1].sample_count
    }
}

/// A sample inside run `r`'s span takes that run's offset.
pub proof fn lemma_ctts_lookup(entries: Seq<CttsEntry>, r: int, n: int)
    requires
        0 <= r < entries.len(),
        ctts_prefix(entries, r) <= n < ctts_prefix(entries, r) + entries[r].sample_count,
    ensures
        ctts_offset_of(entries, n) == entries[r].sample_offset,
    decreases r,
{
    if r == 0 {
        assert(ctts_offset_of(entries, n) == entries[0].sample_offset);
    } else {
        lemma_ctts_prefix_drop(entries, r);
        assert(ctts_prefix(entries, r) >= entries[0].sample_count) by {
            assert(ctts_prefix(entries.drop_first(), r - 1) >= 0) by {
                lemma_ctts_prefix_nonneg(entries.drop_first(), r - 1);
            }
        }
        lemma_ctts_lookup(entries.drop_first(), r - 1, n - entries[0].sample_count);
        assert(entries.drop_first()[r - 1] == entries[r]);
    }
}

/// Prefix sums of run counts are never negative.
pub proof fn lemma_ctts_prefix_nonneg(entries: Seq<CttsEntry>, r: int)
    ensures
        ctts_prefix(entries, r) >= 0,
    decreases r,
{
    if r > 0 {
        lemma_ctts_prefix_nonneg(entries, r - 1);
    }
}

pub proof fn lemma_ctts_prefix_drop(entries: Seq<CttsEntry>, r: int)
    requires
        1 <= r <= entries.len(),
    ensures
        ctts_prefix(entries, r) == entries[0].sample_count + ctts_prefix(
            entries.drop_first(),
            r - 1,
        ),
    decreases r,
{
    if r == 1 {
        assert(ctts_prefix(entries, 1) == ctts_prefix(entries, 0) + entries[0].sample_count);
        assert(ctts_prefix(entries.drop_first(), 0) == 0);
    } else {
        lemma_ctts_prefix_drop(entries, r - 1);
        assert(entries.drop_first()[r - 2] == entries[r - 1]);
        assert(ctts_prefix(entries, r) == ctts_prefix(entries, r - 1) + entries[r - 1].sample_count);
        assert(ctts_prefix(entries.drop_first(), r - 1) == ctts_prefix(entries.drop_first(), r - 2)
            + entries.drop_first()[r - 2].sample_count);
    }
}

/// The forward scan for the run of a chunk may start from any run at or
/// below the answer.
pub proof fn lemma_stsc_run_restart(entries: Seq<StscEntry>, c: int, i: int)
    requires
        0 <= i,
        i <= stsc_run_from(entries, c, 0),
    ensures
        stsc_run_from(entries, c, i) == stsc_run_from(entries, c, 0),
    decreases i,
{
    if i > 0 {
        lemma_stsc_run_restart(entries, c, i - 1);
        lemma_stsc_run_step(entries, c, i - 1);
    }
}

/// Unfolding one scan step from run `i`.
pub proof fn lemma_stsc_run_step(entries: Seq<StscEntry>, c: int, i: int)
    requires
        0 <= i,
        i + 1 < entries.len(),
        entries[i + 1].first_chunk <= c,
    ensures
        stsc_run_from(entries, c, i) == stsc_run_from(entries, c, i + 1),
{
}

/// The run of a chunk never moves backward as the chunk number grows.
pub proof fn lemma_stsc_run_mono(entries: Seq<StscEntry>, c1: int, c2: int, i: int)
    requires
        c1 <= c2,
        0 <= i <= entries.len(),
    ensures
        stsc_run_from(entries, c1, i) <= stsc_run_from(entries, c2, i),
    decreases entries.len() - i,
{
    if i + 1 < entries.len() {
        if entries[i + 1].first_chunk <= c1 {
            lemma_stsc_run_mono(entries, c1, c2, i + 1);
        } else {
            lemma_run_from_lower(entries, c2, i);
        }
    }
}

/// A scan from `i` never lands below `i`.
pub proof fn lemma_run_from_lower(entries: Seq<StscEntry>, c: int, i: int)
    requires
        0 <= i,
    ensures
        stsc_run_from(entries, c, i) >= i,
    decreases entries.len() - i,
{
    if i + 1 < entries.len() && entries[i + 1].first_chunk <= c {
        lemma_run_from_lower(entries, c, i + 1);
    }
}

/// Cumulative chunk counts only grow.
pub proof fn lemma_chunk_cum_mono(entries: Seq<StscEntry>, a: int, b: int)
    requires
        a <= b,
    ensures
        chunk_cum(entries, a) <= chunk_cum(entries, b),
    decreases b - a,
{
    if a < b {
        lemma_chunk_cum_mono(entries, a, b - 1);
    }
}

/// The chunk search finds exactly the chunk whose cumulative range holds
/// the sample.
pub proof fn lemma_flat_chunk_found(entries: Seq<StscEntry>, n: int, c: int, limit: int)
    requires
        1 <= c <= limit,
        chunk_cum(entries, c - 1) <= n < chunk_cum(entries, c),
    ensures
        flat_chunk_of(entries, n, limit) == c,
    decreases c,
{
    lemma_flat_chunk_scan(entries, n, 1, c, limit);
}

/// Scanning from any chunk at or below the answer finds the answer.
pub proof fn lemma_flat_chunk_scan(entries: Seq<StscEntry>, n: int, s: int, c: int, limit: int)
    requires
        1 <= s <= c <= limit,
        chunk_cum(entries, c - 1) <= n < chunk_cum(entries, c),
    ensures
        flat_chunk_from(entries, n, s, limit) == c,
    decreases c - s,
{
    if s < c {
        lemma_chunk_cum_mono(entries, s, c - 1);
        lemma_flat_chunk_scan(entries, n, s + 1, c, limit);
    }
}

// --- The flat timeline builder. ---
/// The duration table's total equals its prefix sum over all runs.
pub proof fn lemma_stts_total_prefix(entries: Seq<SttsEntry>)
    ensures
        stts_total(entries) == stts_prefix(entries, entries.len() as int),
    decreases entries.len(),
{
    if entries.len() > 0 {
        lemma_stts_total_prefix(entries.drop_first());
        lemma_stts_prefix_drop(entries, entries.len() as int);
    }
}

/// Sample durations under the run-length table are never negative.
pub proof fn lemma_stts_delta_nonneg(entries: Seq<SttsEntry>, n: int)
    ensures
        stts_delta_of(entries, n) >= 0,
    decreases entries.len(),
{
    if entries.len() > 0 && n >= entries[0].sample_count {
        lemma_stts_delta_nonneg(entries.drop_first(), n - entries[0].sample_count);
    }
}

/// Decode timestamps never decrease with the sample index.
pub proof fn lemma_flat_dts_mono(entries: Seq<SttsEntry>, a: int, b: int)
    requires
        a <= b,
    ensures
        flat_dts_of(entries, a) <= flat_dts_of(entries, b),
    decreases b - a,
{
    if a < b {
        lemma_flat_dts_mono(entries, a, b - 1);
        lemma_stts_delta_nonneg(entries, b - 1);
    }
}

/// The composition table's total equals its prefix sum over all runs.
pub proof fn lemma_ctts_total_prefix(entries: Seq<CttsEntry>)
    ensures
        ctts_total(entries) == ctts_prefix(entries, entries.len() as int),
    decreases entries.len(),
{
    if entries.len() > 0 {
        lemma_ctts_total_prefix(entries.drop_first());
        lemma_ctts_prefix_drop(entries, entries.len() as int);
    }
}

/// The conditions under which the flat builder succeeds: a track with no
/// samples always builds; otherwise the chunk map and a chunk-offset table
/// must be present, the duration (and, if present, composition) runs must
/// cover the total sample count, the addressed chunks must cover it too,
/// and no timestamp, chunk count or byte offset may leave its fixed-width
/// range, with the declared media duration reaching the last sample.
pub open spec fn flat_build_ok(trak: &TrakBox) -> bool {
    let stbl = &trak.mdia.minf.stbl;
    let total = stsz_total(&stbl.stsz);
    total == 0 || {
        &&& stbl_chunk_count(stbl) >= 1
        &&& stbl.stsc.entries@.len() >= 1
        &&& stts_total(stbl.stts.entries@) >= total
        &&& flat_dts_of(stbl.stts.entries@, total) <= u64::MAX
        &&& (match stbl.ctts {
            Some(c) => ctts_total(c.entries@) >= total && forall|n: int|
                0 <= n < total ==> 0 <= flat_dts_of(stbl.stts.entries@, n) + #[trigger] ctts_offset_of(
                    c.entries@,
                    n,
                ) <= u64::MAX,
            None => true,
        })
        &&& total <= chunk_cum(stbl.stsc.entries@, stbl_chunk_count(stbl))
        &&& (forall|c: int|
            1 <= c <= stbl_chunk_count(stbl) ==> #[trigger] chunk_cum(stbl.stsc.entries@, c)
                <= u64::MAX)
        &&& (forall|n: int|
            0 <= n < total ==> #[trigger] flat_offset_of(stbl, n) + stsz_size_of(&stbl.stsz, n)
                <= u64::MAX)
        &&& trak.mdia.mdhd.duration >= flat_dts_of(stbl.stts.entries@, total - 1)
    }
}

/// Everything the flat builder promises of sample `j` of a track, except
/// its duration, which depends on the next sample or the track duration.
pub open spec fn flat_sample_ok(trak: &TrakBox, s: Sample, j: int) -> bool {
    let stbl = &trak.mdia.minf.stbl;
    &&& s.id == j as u32
    &&& s.timescale == trak.mdia.mdhd.timescale as u64
    &&& s.size == stsz_size_of(&stbl.stsz, j)
    &&& s.decode_timestamp == flat_dts_of(stbl.stts.entries@, j)
    &&& s.composition_timestamp == flat_dts_of(stbl.stts.entries@, j) + (match stbl.ctts {
        Some(c) => ctts_offset_of(c.entries@, j),
        None => 0int,
    })
    &&& s.is_sync == (match stbl.stss {
        Some(ss) => stss_sync_at(ss.entries@, j),
        None => true,
    })
    &&& s.offset == flat_offset_of(stbl, j)
}

/// Builds the complete ordered sample list of one non-fragmented track by
/// a synchronized scan over its four run-length tables: the chunk map, the
/// duration runs, the optional composition-offset runs and the optional
/// sync-sample list.  Every cumulative count and every arithmetic step is
/// checked; a table that runs out before the total sample count, a chunk
/// without an offset entry, or an overflowing timestamp or offset is a
/// fatal error.
pub fn build_track_samples(trak: &TrakBox) -> (r: Result<Vec<Sample>, Error>)
    ensures
        r matches Ok(s) ==> {
            let stbl = &trak.mdia.minf.stbl;
            &&& s@.len() == stsz_total(&stbl.stsz)
            &&& forall|j: int| 0 <= j < s@.len() ==> flat_sample_ok(trak, #[trigger] s@[j], j)
            &&& forall|j: int|
                0 <= j < s@.len() - 1 ==> (#[trigger] s@[j]).duration == stts_delta_of(
                    stbl.stts.entries@,
                    j,
                )
            &&& s@.len() > 0 ==> s@[s@.len() - 1].duration == trak.mdia.mdhd.duration
                - flat_dts_of(stbl.stts.entries@, s@.len() - 1)
            &&& forall|j: int|
                0 <= j < s@.len() - 1 ==> (#[trigger] s@[j]).decode_timestamp + s@[j].duration
                    == s@[j + 1].decode_timestamp
            &&& s@.len() > 0 ==> exists|c: int|
                1 <= c <= stbl_chunk_count(stbl) && #[trigger] chunk_cum(stbl.stsc.entries@, c)
                    >= s@.len() && chunk_cum(stbl.stsc.entries@, c - 1) <= s@.len()
        },
        r matches Err(e) ==> {
            &&& !flat_build_ok(trak)
            &&& e is MalformedContainer || e is MissingRequiredBox
            &&& (e is MissingRequiredBox ==> trak.mdia.minf.stbl.stco is None
                && trak.mdia.minf.stbl.co64 is None)
            &&& (e matches Error::MissingRequiredBox(bt) ==> bt == BoxType::StcoBox)
        },
{
    let stbl = &trak.mdia.minf.stbl;
    let stsz = &stbl.stsz;
    let total: u64 = stsz.total_count();
    let timescale: u64 = trak.mdia.mdhd.timescale as u64;
    let mut samples: Vec<Sample> = Vec::new();
    if total == 0 {
        return Ok(samples);
    }
    let chunk_limit: u64 = match &stbl.stco {
        Some(stco) => stco.entries.len() as u64,
        None => match &stbl.co64 {
            Some(co64) => co64.entries.len() as u64,
            None => {
                return Err(Error::MissingRequiredBox(BoxType::StcoBox));
            },
        },
    };
    if chunk_limit == 0 {
        return Err(Error::MalformedContainer("no chunk holds the track's samples"));
    }
    let stsc_entries = &stbl.stsc.entries;
    let stsc_len: usize = stsc_entries.len();
    if stsc_len == 0 {
        return Err(Error::MalformedContainer("chunk map is empty"));
    }
    // position the chunk cursor on chunk 1
    let mut chunk: u64 = 1;
    let mut run: usize = 0;
    while run + 1 < stsc_len && stsc_entries[run + 1].first_chunk as u64 <= chunk
        invariant
            run < stsc_len,
            stsc_len == stsc_entries@.len(),
            chunk == 1,
            stsc_run_from(stsc_entries@, 1, run as int) == stsc_run_from(stsc_entries@, 1, 0),
        decreases stsc_len - run,
    {
        proof {
            lemma_stsc_run_step(stsc_entries@, 1, run as int);
        }
        run = run + 1;
    }
    proof {
        assert(run as int == stsc_run_from(stsc_entries@, 1, 0));
        assert(chunk_cum(stsc_entries@, 0) == 0);
        assert(chunk_cum(stsc_entries@, 1) == stsc_spc_of_chunk(stsc_entries@, 1));
    }
    let mut chunk_start: u64 = 0;
    let mut chunk_end: u64 = stsc_entries[run].samples_per_chunk as u64;
    let mut offset_in_chunk: u64 = 0;
    // duration-run cursor
    let mut stts_run: usize = 0;
    let mut stts_base: u64 = 0;
    // composition-run cursor
    let mut ctts_run: usize = 0;
    let mut ctts_base: u64 = 0;
    // sync-list cursor
    let mut last_stss: usize = 0;
    let mut dts: u64 = 0;
    let mut n: u64 = 0;
    while n < total
        invariant
            total == stsz_total(stsz),
            stsz == &trak.mdia.minf.stbl.stsz,
            stbl == &trak.mdia.minf.stbl,
            stsc_entries == &trak.mdia.minf.stbl.stsc.entries,
            stsc_len == stsc_entries@.len(),
            stsc_len > 0,
            timescale == trak.mdia.mdhd.timescale as u64,
            chunk_limit == stbl_chunk_count(stbl),
            chunk_limit > 0,
            n <= total,
            samples@.len() == n,
            1 <= chunk <= chunk_limit,
            run < stsc_len,
            run as int == stsc_run_from(stsc_entries@, chunk as int, 0),
            chunk_start == chunk_cum(stsc_entries@, chunk as int - 1),
            chunk_end == chunk_cum(stsc_entries@, chunk as int),
            chunk_start <= n <= chunk_end,
            offset_in_chunk == size_range_sum(stsz, chunk_start as int, n as int),
            stts_run <= stbl.stts.entries@.len(),
            stts_base == stts_prefix(stbl.stts.entries@, stts_run as int),
            stts_base <= n,
            match stbl.ctts {
                Some(c) => ctts_run <= c.entries@.len() && ctts_base == ctts_prefix(
                    c.entries@,
                    ctts_run as int,
                ) && ctts_base <= n,
                None => true,
            },
            match stbl.stss {
                Some(ss) => last_stss == stss_ptr(ss.entries@, n as int) && last_stss
                    <= ss.entries@.len(),
                None => true,
            },
            dts == flat_dts_of(stbl.stts.entries@, n as int),
            forall|j: int| 0 <= j < n ==> flat_sample_ok(trak, #[trigger] samples@[j], j),
            forall|j: int|
                0 <= j < n ==> (#[trigger] samples@[j]).duration == stts_delta_of(
                    stbl.stts.entries@,
                    j,
                ),
            forall|j: int|
                0 <= j < n ==> (#[trigger] samples@[j]).decode_timestamp == flat_dts_of(
                    stbl.stts.entries@,
                    j,
                ),
        decreases total - n,
    {
        // advance the chunk cursor until chunk `chunk` still has room
        while n >= chunk_end
            invariant
                stsc_entries == &trak.mdia.minf.stbl.stsc.entries,
                stbl == &trak.mdia.minf.stbl,
                stsz == &trak.mdia.minf.stbl.stsz,
                total == stsz_total(stsz),
                n < total,
                stsc_len == stsc_entries@.len(),
                stsc_len > 0,
                chunk_limit == stbl_chunk_count(stbl),
                1 <= chunk <= chunk_limit,
                run < stsc_len,
                run as int == stsc_run_from(stsc_entries@, chunk as int, 0),
                chunk_start == chunk_cum(stsc_entries@, chunk as int - 1),
                chunk_end == chunk_cum(stsc_entries@, chunk as int),
                chunk_start <= n,
                n >= chunk_end ==> n == chunk_end,
                offset_in_chunk == size_range_sum(stsz, chunk_start as int, n as int),
                stsz == &trak.mdia.minf.stbl.stsz,
            decreases chunk_limit - chunk,
        {
            if chunk >= chunk_limit {
                proof {
                    assert(chunk_cum(stsc_entries@, stbl_chunk_count(stbl)) == chunk_end);
                }
                return Err(Error::MalformedContainer("sample beyond the chunk-offset table"));
            }
            let ghost old_chunk = chunk as int;
            let ghost old_run = run as int;
            chunk = chunk + 1;
            while run + 1 < stsc_len && stsc_entries[run + 1].first_chunk as u64 <= chunk
                invariant
                    run < stsc_len,
                    stsc_len == stsc_entries@.len(),
                    stsc_run_from(stsc_entries@, chunk as int, run as int) == stsc_run_from(
                        stsc_entries@,
                        chunk as int,
                        old_run,
                    ),
                decreases stsc_len - run,
            {
                proof {
                    lemma_stsc_run_step(stsc_entries@, chunk as int, run as int);
                }
                run = run + 1;
            }
            proof {
                lemma_stsc_run_mono(stsc_entries@, old_chunk, chunk as int, 0);
                lemma_stsc_run_restart(stsc_entries@, chunk as int, old_run);
            }
            let spc: u64 = stsc_entries[run].samples_per_chunk as u64;
            if spc > u64::MAX - chunk_end {
                proof {
                    assert(chunk_cum(stsc_entries@, chunk as int) == chunk_end + spc);
                }
                return Err(Error::MalformedContainer("chunk sample count overflow"));
            }
            chunk_start = chunk_end;
            chunk_end = chunk_end + spc;
            offset_in_chunk = 0;
        }
        // advance the duration-run cursor to the run covering sample `n`
        loop
            invariant
                stbl == &trak.mdia.minf.stbl,
                stsz == &trak.mdia.minf.stbl.stsz,
                total == stsz_total(stsz),
                n < total,
                stts_run <= stbl.stts.entries@.len(),
                stts_base == stts_prefix(stbl.stts.entries@, stts_run as int),
                stts_base <= n,
            ensures
                stts_run < stbl.stts.entries@.len(),
                stts_base == stts_prefix(stbl.stts.entries@, stts_run as int),
                stts_base <= n,
                n - stts_base < stbl.stts.entries@[stts_run as int].sample_count,
            decreases stbl.stts.entries@.len() - stts_run,
        {
            if stts_run >= stbl.stts.entries.len() {
                proof {
                    lemma_stts_total_prefix(stbl.stts.entries@);
                }
                return Err(
                    Error::MalformedContainer("duration table ends before the sample count"),
                );
            }
            let cnt: u64 = stbl.stts.entries[stts_run].sample_count as u64;
            if n - stts_base < cnt {
                break ;
            }
            stts_base = stts_base + cnt;
            stts_run = stts_run + 1;
        }
        let delta: u64 = stbl.stts.entries[stts_run].sample_delta as u64;
        proof {
            lemma_stts_lookup(stbl.stts.entries@, stts_run as int, n as int);
        }
        // composition offset of sample `n`, where the table exists
        let cts: u64 = match &stbl.ctts {
            Some(ctts) => {
                loop
                    invariant
                        stbl == &trak.mdia.minf.stbl,
                        stsz == &trak.mdia.minf.stbl.stsz,
                        total == stsz_total(stsz),
                        n < total,
                        stbl.ctts matches Some(c) && c == ctts,
                        ctts_run <= ctts.entries@.len(),
                        ctts_base == ctts_prefix(ctts.entries@, ctts_run as int),
                        ctts_base <= n,
                    ensures
                        ctts_run < ctts.entries@.len(),
                        ctts_base == ctts_prefix(ctts.entries@, ctts_run as int),
                        ctts_base <= n,
                        n - ctts_base < ctts.entries@[ctts_run as int].sample_count,
                    decreases ctts.entries@.len() - ctts_run,
                {
                    if ctts_run >= ctts.entries.len() {
                        proof {
                            lemma_ctts_total_prefix(ctts.entries@);
                        }
                        return Err(
                            Error::MalformedContainer(
                                "composition table ends before the sample count",
                            ),
                        );
                    }
                    let cnt: u64 = ctts.entries[ctts_run].sample_count as u64;
                    if n - ctts_base < cnt {
                        break ;
                    }
                    ctts_base = ctts_base + cnt;
                    ctts_run = ctts_run + 1;
                }
                let off: i32 = ctts.entries[ctts_run].sample_offset;
                proof {
                    lemma_ctts_lookup(ctts.entries@, ctts_run as int, n as int);
                }
                if off >= 0 {
                    let mag: u64 = off as u64;
                    if mag > u64::MAX - dts {
                        return Err(Error::MalformedContainer("composition timestamp overflow"));
                    }
                    dts + mag
                } else {
                    let mag: u64 = (-(off as i64)) as u64;
                    if dts < mag {
                        return Err(Error::MalformedContainer("negative composition timestamp"));
                    }
                    dts - mag
                }
            },
            None => dts,
        };
        // sync flag of sample `n`
        let is_sync: bool = match &stbl.stss {
            Some(stss) => {
                if last_stss < stss.entries.len() && stss.entries[last_stss] as u64 == n + 1 {
                    last_stss = last_stss + 1;
                    true
                } else {
                    false
                }
            },
            None => true,
        };
        // byte offset of sample `n`
        let chunk_off: u64 = match &stbl.stco {
            Some(stco) => {
                if chunk - 1 >= stco.entries.len() as u64 {
                    return Err(Error::MalformedContainer("chunk has no offset entry"));
                }
                stco.entries[(chunk - 1) as usize] as u64
            },
            None => match &stbl.co64 {
                Some(co64) => {
                    if chunk - 1 >= co64.entries.len() as u64 {
                        return Err(Error::MalformedContainer("chunk has no offset entry"));
                    }
                    co64.entries[(chunk - 1) as usize]
                },
                None => {
                    return Err(Error::MissingRequiredBox(BoxType::StcoBox));
                },
            },
        };
        if offset_in_chunk > u64::MAX - chunk_off {
            proof {
                lemma_flat_chunk_found(stsc_entries@, n as int, chunk as int, chunk_limit as int);
                assert(flat_offset_of(stbl, n as int) == chunk_off + offset_in_chunk);
            }
            return Err(Error::MalformedContainer("sample offset overflow"));
        }
        let offset: u64 = chunk_off + offset_in_chunk;
        proof {
            lemma_flat_chunk_found(stsc_entries@, n as int, chunk as int, chunk_limit as int);
        }
        let size: u64 = stsz.size_of_sample(n) as u64;
        samples.push(
            Sample {
                id: n as u32,
                is_sync,
                size,
                offset,
                timescale,
                decode_timestamp: dts,
                composition_timestamp: cts,
                duration: delta,
            },
        );
        proof {
            assert(flat_chunk_of(stsc_entries@, n as int, chunk_limit as int) == chunk as int);
            assert(stbl_chunk_offset(stbl, chunk as int) == chunk_off);
            assert(size_range_sum(&stbl.stsz, chunk_cum(stbl.stsc.entries@, chunk as int - 1), n as int)
                == offset_in_chunk);
            assert(flat_offset_of(stbl, n as int) == chunk_off + offset_in_chunk);
            assert(flat_sample_ok(trak, samples@[n as int], n as int));
        }
        if size > u64::MAX - offset_in_chunk {
            proof {
                assert(flat_offset_of(stbl, n as int) + stsz_size_of(stsz, n as int) > u64::MAX);
            }
            return Err(Error::MalformedContainer("chunk byte length overflow"));
        }
        offset_in_chunk = offset_in_chunk + size;
        if delta > u64::MAX - dts {
            proof {
                lemma_flat_dts_mono(stbl.stts.entries@, n as int + 1, total as int);
            }
            return Err(Error::MalformedContainer("decode timestamp overflow"));
        }
        dts = dts + delta;
        n = n + 1;
    }
    // the last sample's duration comes from the declared track duration
    let last = match samples.pop() {
        Some(s) => s,
        None => {
            return Err(Error::MalformedContainer("no samples built"));
        },
    };
    if trak.mdia.mdhd.duration < last.decode_timestamp {
        return Err(
            Error::MalformedContainer("media duration inconsistent with the sample tables"),
        );
    }
    let fixed = Sample { duration: trak.mdia.mdhd.duration - last.decode_timestamp, ..last };
    samples.push(fixed);
    proof {
        assert(1 <= chunk as int <= stbl_chunk_count(stbl) && chunk_cum(
            stbl.stsc.entries@,
            chunk as int,
        ) >= samples@.len() && chunk_cum(stbl.stsc.entries@, chunk as int - 1) <= samples@.len());
        assert(forall|j: int|
            0 <= j < samples@.len() - 1 ==> (#[trigger] samples@[j]).duration == stts_delta_of(
                stbl.stts.entries@,
                j,
            ));
        assert(flat_sample_ok(trak, samples@[samples@.len() - 1], samples@.len() - 1));
    }
    Ok(samples)
}

// --- The fragment merger. ---
/// The per-fragment default sample duration: the track-fragment header's
/// override, else the movie-level extends-default.
pub open spec fn frag_default_duration(tfhd: &TfhdBox, trex: &TrexBox) -> int {
    match tfhd.default_sample_duration {
        Some(d) => d as int,
        None => trex.default_sample_duration as int,
    }
}

/// The per-fragment default sample size, cascaded the same way.
pub open spec fn frag_default_size(tfhd: &TfhdBox, trex: &TrexBox) -> int {
    match tfhd.default_sample_size {
        Some(d) => d as int,
        None => trex.default_sample_size as int,
    }
}

/// The per-fragment default sample flags, cascaded the same way.
pub open spec fn frag_default_flags(tfhd: &TfhdBox, trex: &TrexBox) -> int {
    match tfhd.default_sample_flags {
        Some(d) => d as int,
        None => trex.default_sample_flags as int,
    }
}

/// The duration of sample `j` of a run: the run's own column, else the
/// cascade default.
pub open spec fn frag_duration(trun: &TrunBox, tfhd: &TfhdBox, trex: &TrexBox, j: int) -> int {
    if 0 <= j < trun.sample_durations@.len() {
        trun.sample_durations@[j] as int
    } else {
        frag_default_duration(tfhd, trex)
    }
}

/// The size of sample `j` of a run, cascaded the same way.
pub open spec fn frag_size(trun: &TrunBox, tfhd: &TfhdBox, trex: &TrexBox, j: int) -> int {
    if 0 <= j < trun.sample_sizes@.len() {
        trun.sample_sizes@[j] as int
    } else {
        frag_default_size(tfhd, trex)
    }
}

/// The flags of sample `j` of a run: the run's own column when declared;
/// else, only for the very first sample of the very first run of the track
/// fragment, the run's first-sample override; else the cascade default.
pub open spec fn frag_flags(
    trun: &TrunBox,
    tfhd: &TfhdBox,
    trex: &TrexBox,
    trun_idx: int,
    j: int,
) -> int {
    if trun.flags & 0x400 != 0 {
        if 0 <= j < trun.sample_flags@.len() {
            trun.sample_flags@[j] as int
        } else {
            frag_default_flags(tfhd, trex)
        }
    } else if trun_idx == 0 && j == 0 && trun.flags & 0x04 != 0 {
        match trun.first_sample_flags {
            Some(f) => f as int,
            None => frag_default_flags(tfhd, trex),
        }
    } else {
        frag_default_flags(tfhd, trex)
    }
}

/// The composition offset of sample `j` of a run: the run's own column
/// when declared, else zero.
pub open spec fn frag_cts_delta(trun: &TrunBox, j: int) -> int {
    if trun.flags & 0x800 != 0 {
        if 0 <= j < trun.sample_cts@.len() {
            trun.sample_cts@[j] as int
        } else {
            0
        }
    } else {
        0
    }
}

/// The base against which a run's samples are placed, in priority order:
/// an explicit base data offset in the header wins; otherwise the
/// fragment's own file start (which is also what "default-base-is-moof"
/// names, so that flag changes nothing here).
pub open spec fn frag_base_offset(tfhd: &TfhdBox, moof_start: u64) -> int {
    if tfhd.flags & 0x01 != 0 {
        match tfhd.base_data_offset {
            Some(b) => b as int,
            None => moof_start as int,
        }
    } else {
        moof_start as int
    }
}

/// The resolved byte offset of sample `j` of run `trun_idx`: the first
/// sample of a run that carries a data-offset field lands at the base
/// plus that field; the first sample of the track fragment's first run
/// lands at the base; every other sample follows the previously appended
/// one contiguously.
pub open spec fn frag_sample_offset(
    trun: &TrunBox,
    tfhd: &TfhdBox,
    moof_start: u64,
    last_run_position: int,
    trun_idx: int,
    j: int,
) -> int {
    if j == 0 && trun.flags & 0x01 != 0 {
        frag_base_offset(tfhd, moof_start) + (match trun.data_offset {
            Some(d) => d as int,
            None => 0int,
        })
    } else if trun_idx == 0 && j == 0 {
        frag_base_offset(tfhd, moof_start)
    } else {
        last_run_position
    }
}

/// Base-data-offset resolution, as the byte-offset rules promise it: the
/// first sample of any run whose data-offset field is set lands at the
/// header's base data offset (or the fragment start when the header
/// carries none) plus that run's data offset.
pub proof fn lemma_base_data_offset_resolution(
    trun: &TrunBox,
    tfhd: &TfhdBox,
    moof_start: u64,
    last_run_position: int,
    trun_idx: int,
)
    requires
        trun.flags & 0x01 != 0,
    ensures
        frag_sample_offset(trun, tfhd, moof_start, last_run_position, trun_idx, 0) == (
        if tfhd.flags & 0x01 != 0 {
            match tfhd.base_data_offset {
                Some(b) => b as int,
                None => moof_start as int,
            }
        } else {
            moof_start as int
        }) + (match trun.data_offset {
            Some(d) => d as int,
            None => 0int,
        }),
{
}

/// Decode timestamps never decrease along a list whose every sample after
/// the first starts exactly when its predecessor ends.
pub proof fn lemma_decode_timestamps_non_decreasing(s: Seq<Sample>)
    requires
        forall|k: int|
            0 < k < s.len() ==> (#[trigger] s[k]).decode_timestamp == s[k
                - 1].decode_timestamp + s[k - 1].duration,
    ensures
        forall|i: int, j: int|
            0 <= i <= j < s.len() ==> (#[trigger] s[i]).decode_timestamp
                <= (#[trigger] s[j]).decode_timestamp,
{
    assert forall|i: int, j: int|
        0 <= i <= j < s.len() implies (#[trigger] s[i]).decode_timestamp
        <= (#[trigger] s[j]).decode_timestamp by {
        lemma_dts_step_le(s, i, j);
    }
}

proof fn lemma_dts_step_le(s: Seq<Sample>, i: int, j: int)
    requires
        0 <= i <= j < s.len(),
        forall|k: int|
            0 < k < s.len() ==> (#[trigger] s[k]).decode_timestamp == s[k
                - 1].decode_timestamp + s[k - 1].duration,
    ensures
        s[i].decode_timestamp <= s[j].decode_timestamp,
    decreases j - i,
{
    if i < j {
        lemma_dts_step_le(s, i, j - 1);
    }
}

/// A track with no sync-sample table reports every sample as a sync
/// sample.
pub proof fn lemma_no_stss_all_sync(trak: &TrakBox, s: Seq<Sample>)
    requires
        trak.mdia.minf.stbl.stss is None,
        forall|j: int| 0 <= j < s.len() ==> flat_sample_ok(trak, #[trigger] s[j], j),
    ensures
        forall|j: int| 0 <= j < s.len() ==> (#[trigger] s[j]).is_sync,
{
}

/// The decode timestamp a run sample receives: the track fragment's base
/// decode time (or zero) for the very first sample ever appended to the
/// track, else the end of the previously appended sample.
pub open spec fn frag_dts_value(
    tfdt_base: Option<u64>,
    first_ever: bool,
    prev_dts: u64,
    prev_dur: u64,
) -> int {
    if first_ever {
        match tfdt_base {
            Some(b) => b as int,
            None => 0int,
        }
    } else {
        prev_dts + prev_dur
    }
}

/// Computes one sample of a track run from the cascade of defaults, the
/// run columns, the timeline state, and the byte-offset rules.  This is
/// the step function of the fragment merger: everything it returns is
/// pinned to the model, and every arithmetic step is checked.
pub fn fragment_sample(
    trun: &TrunBox,
    tfhd: &TfhdBox,
    trex: &TrexBox,
    tfdt_base: Option<u64>,
    timescale: u64,
    moof_start: u64,
    last_run_position: u64,
    trun_idx: u64,
    j: u64,
    first_ever: bool,
    prev_dts: u64,
    prev_dur: u64,
    id: u32,
) -> (r: Result<Sample, Error>)
    ensures
        r matches Ok(s) ==> {
            &&& s.id == id
            &&& s.timescale == timescale
            &&& s.duration == frag_duration(trun, tfhd, trex, j as int)
            &&& s.size == frag_size(trun, tfhd, trex, j as int)
            &&& s.decode_timestamp as int == frag_dts_value(
                tfdt_base,
                first_ever,
                prev_dts,
                prev_dur,
            )
            &&& s.composition_timestamp as int == s.decode_timestamp + frag_cts_delta(
                trun,
                j as int,
            )
            &&& s.is_sync == ((frag_flags(trun, tfhd, trex, trun_idx as int, j as int) / 0x10000)
                % 2 == 1)
            &&& s.offset as int == frag_sample_offset(
                trun,
                tfhd,
                moof_start,
                last_run_position as int,
                trun_idx as int,
                j as int,
            )
        },
        r is Err <==> {
            ||| frag_dts_value(tfdt_base, first_ever, prev_dts, prev_dur) > u64::MAX
            ||| frag_dts_value(tfdt_base, first_ever, prev_dts, prev_dur) + frag_cts_delta(
                trun,
                j as int,
            ) > u64::MAX
            ||| frag_sample_offset(
                trun,
                tfhd,
                moof_start,
                last_run_position as int,
                trun_idx as int,
                j as int,
            ) > u64::MAX
            ||| frag_sample_offset(
                trun,
                tfhd,
                moof_start,
                last_run_position as int,
                trun_idx as int,
                j as int,
            ) < 0
        },
        r matches Err(e) ==> e is MalformedContainer,
{
    let default_duration: u32 = match tfhd.default_sample_duration {
        Some(d) => d,
        None => trex.default_sample_duration,
    };
    let default_size: u32 = match tfhd.default_sample_size {
        Some(d) => d,
        None => trex.default_sample_size,
    };
    let default_flags: u32 = match tfhd.default_sample_flags {
        Some(d) => d,
        None => trex.default_sample_flags,
    };
    let duration: u64 = if j < trun.sample_durations.len() as u64 {
        trun.sample_durations[j as usize] as u64
    } else {
        default_duration as u64
    };
    let size: u64 = if j < trun.sample_sizes.len() as u64 {
        trun.sample_sizes[j as usize] as u64
    } else {
        default_size as u64
    };
    let sample_flags: u32 = if trun.flags & 0x400 != 0 {
        if j < trun.sample_flags.len() as u64 {
            trun.sample_flags[j as usize]
        } else {
            default_flags
        }
    } else if trun_idx == 0 && j == 0 && trun.flags & 0x04 != 0 {
        match trun.first_sample_flags {
            Some(f) => f,
            None => default_flags,
        }
    } else {
        default_flags
    };
    let decode_timestamp: u64 = if first_ever {
        match tfdt_base {
            Some(b) => b,
            None => 0,
        }
    } else {
        if prev_dur > u64::MAX - prev_dts {
            return Err(Error::MalformedContainer("decode timestamp overflow"));
        }
        prev_dts + prev_dur
    };
    let cts_delta: u64 = if trun.flags & 0x800 != 0 {
        if j < trun.sample_cts.len() as u64 {
            trun.sample_cts[j as usize] as u64
        } else {
            0
        }
    } else {
        0
    };
    if cts_delta > u64::MAX - decode_timestamp {
        return Err(Error::MalformedContainer("composition timestamp overflow"));
    }
    let composition_timestamp: u64 = decode_timestamp + cts_delta;
    let offset: u64 = if j == 0 && trun.flags & 0x01 != 0 {
        let base: u64 = if tfhd.flags & 0x01 != 0 {
            match tfhd.base_data_offset {
                Some(b) => b,
                None => moof_start,
            }
        } else {
            moof_start
        };
        let d: i32 = match trun.data_offset {
            Some(d) => d,
            None => 0,
        };
        if d >= 0 {
            let mag: u64 = d as u64;
            if mag > u64::MAX - base {
                return Err(Error::MalformedContainer("sample offset overflow"));
            }
            base + mag
        } else {
            let mag: u64 = (-(d as i64)) as u64;
            if base < mag {
                return Err(Error::MalformedContainer("sample offset underflow"));
            }
            base - mag
        }
    } else if trun_idx == 0 && j == 0 {
        if tfhd.flags & 0x01 != 0 {
            match tfhd.base_data_offset {
                Some(b) => b,
                None => moof_start,
            }
        } else {
            moof_start
        }
    } else {
        last_run_position
    };
    Ok(
        Sample {
            id,
            is_sync: (sample_flags / 0x10000) % 2 == 1,
            size,
            offset,
            timescale,
            decode_timestamp,
            composition_timestamp,
            duration,
        },
    )
}

/// The sample counts of a track fragment's runs, added up.
pub open spec fn truns_total(truns: Seq<TrunBox>) -> int
    decreases truns.len(),
{
    if truns.len() == 0 {
        0
    } else {
        truns_total(truns.drop_last()) + truns.last().sample_count
    }
}

pub proof fn lemma_truns_total_take_step(truns: Seq<TrunBox>, i: int)
    requires
        0 <= i < truns.len(),
    ensures
        truns_total(truns.take(i + 1)) == truns_total(truns.take(i)) + truns[i].sample_count,
{
    assert(truns.take(i + 1).drop_last() =~= truns.take(i));
    assert(truns.take(i + 1).last() == truns[i]);
}

pub proof fn lemma_truns_total_nonneg(truns: Seq<TrunBox>)
    ensures
        truns_total(truns) >= 0,
    decreases truns.len(),
{
    if truns.len() > 0 {
        lemma_truns_total_nonneg(truns.drop_last());
    }
}

pub proof fn lemma_truns_total_take_le(truns: Seq<TrunBox>, i: int)
    requires
        0 <= i <= truns.len(),
    ensures
        truns_total(truns.take(i)) <= truns_total(truns),
    decreases truns.len() - i,
{
    if i == truns.len() {
        assert(truns.take(i) =~= truns);
    } else {
        lemma_truns_total_take_le(truns, i + 1);
        lemma_truns_total_take_step(truns, i);
    }
}

/// Everything the merger promises of sample `jr` of run `t` of a track
/// fragment appended at list position `base + (samples of earlier runs) +
/// jr`: the duration, size and flags cascade, the composition offset, the
/// sync bit, and the byte-offset rules, with "the position after the
/// previous sample" read off the list itself.
pub open spec fn frag_run_sample_ok(
    traf: &TrafBox,
    trex: &TrexBox,
    moof_start: u64,
    last_run_position: u64,
    timescale: u64,
    base: int,
    s: Seq<Sample>,
    t: int,
    jr: int,
) -> bool {
    let k = base + truns_total(traf.truns@.take(t)) + jr;
    &&& 0 <= k < s.len()
    &&& s[k].id == k as u32
    &&& s[k].timescale == timescale
    &&& s[k].duration as int == frag_duration(&traf.truns@[t], &traf.tfhd, trex, jr)
    &&& s[k].size as int == frag_size(&traf.truns@[t], &traf.tfhd, trex, jr)
    &&& s[k].is_sync == ((frag_flags(&traf.truns@[t], &traf.tfhd, trex, t, jr) / 0x10000) % 2
        == 1)
    &&& s[k].composition_timestamp as int == s[k].decode_timestamp + frag_cts_delta(
        &traf.truns@[t],
        jr,
    )
    &&& s[k].offset as int == frag_sample_offset(
        &traf.truns@[t],
        &traf.tfhd,
        moof_start,
        (if k == base {
            last_run_position as int
        } else {
            s[k - 1].offset + s[k - 1].size
        }),
        t,
        jr,
    )
}

/// Appends the samples of one track fragment to a track, run by run in
/// run order, threading the decode-timestamp chain and the byte-offset
/// rules, and reports the byte position just after the last appended
/// sample.
pub fn merge_traf(
    track: Track,
    trex: &TrexBox,
    traf: &TrafBox,
    moof_start: u64,
    last_run_position: u64,
) -> (r: Result<(Track, u64), Error>)
    ensures
        r matches Ok(p) ==> {
            let t = p.0;
            let base = track.samples@.len() as int;
            &&& t.track_id == track.track_id
            &&& t.width == track.width
            &&& t.height == track.height
            &&& t.timescale == track.timescale
            &&& t.duration == track.duration
            &&& t.kind == track.kind
            &&& t.data == track.data
            &&& t.samples@.len() >= base
            &&& t.samples@.len() == base + truns_total(traf.truns@)
            &&& t.samples@.take(base) == track.samples@
            &&& t.first_traf_merged == (track.first_traf_merged || t.samples@.len() > base)
            &&& forall|k: int|
                base <= k < t.samples@.len() && k > 0 && (k > base || track.first_traf_merged)
                    ==> (#[trigger] t.samples@[k]).decode_timestamp == t.samples@[k
                    - 1].decode_timestamp + t.samples@[k - 1].duration
            &&& (t.samples@.len() > base && !track.first_traf_merged) ==> t.samples@[
                base].decode_timestamp as int == (match traf.tfdt {
                Some(td) => td.base_media_decode_time as int,
                None => 0int,
            })
            &&& forall|t2: int, j2: int|
                0 <= t2 < traf.truns@.len() && 0 <= j2 < traf.truns@[t2].sample_count
                    ==> #[trigger] frag_run_sample_ok(
                    traf,
                    trex,
                    moof_start,
                    last_run_position,
                    track.timescale,
                    base,
                    t.samples@,
                    t2,
                    j2,
                )
            &&& (t.samples@.len() > base) ==> p.1 as int == t.samples@[t.samples@.len()
                - 1].offset + t.samples@[t.samples@.len() - 1].size
            &&& (t.samples@.len() == base) ==> p.1 == last_run_position
        },
        r matches Err(e) ==> e is MalformedContainer,
        r is Err ==> (track.first_traf_merged && track.samples@.len() == 0) || truns_total(
            traf.truns@,
        ) > 0,
        (!(track.first_traf_merged && track.samples@.len() == 0) && traf.truns@.len() == 0)
            ==> r is Ok,
{
    let ghost old_track = track;
    let mut track = track;
    let ghost base = track.samples@.len() as int;
    let timescale: u64 = track.timescale;
    let mut lr: u64 = last_run_position;
    let mut merged: bool = track.first_traf_merged;
    let mut prev_dts: u64 = 0;
    let mut prev_dur: u64 = 0;
    if merged {
        let n = track.samples.len();
        if n == 0 {
            return Err(Error::MalformedContainer("merged track without samples"));
        }
        prev_dts = track.samples[n - 1].decode_timestamp;
        prev_dur = track.samples[n - 1].duration;
    }
    let tfdt_base: Option<u64> = match &traf.tfdt {
        Some(td) => Some(td.base_media_decode_time),
        None => None,
    };
    let mut ti: usize = 0;
    let trun_count = traf.truns.len();
    while ti < trun_count
        invariant
            ti <= trun_count,
            trun_count == traf.truns@.len(),
            base == old_track.samples@.len() as int,
            timescale == old_track.timescale,
            track.track_id == old_track.track_id,
            track.width == old_track.width,
            track.height == old_track.height,
            track.timescale == old_track.timescale,
            track.duration == old_track.duration,
            track.kind == old_track.kind,
            track.data == old_track.data,
            track.first_traf_merged == old_track.first_traf_merged,
            tfdt_base == (match traf.tfdt {
                Some(td) => Some(td.base_media_decode_time),
                None => None,
            }),
            track.samples@.len() >= base,
            track.samples@.take(base) == old_track.samples@,
            merged == (old_track.first_traf_merged || track.samples@.len() > base),
            merged ==> track.samples@.len() > 0 && prev_dts == track.samples@[track.samples@.len()
                - 1].decode_timestamp && prev_dur == track.samples@[track.samples@.len()
                - 1].duration,
            forall|k: int|
                base <= k < track.samples@.len() && k > 0 && (k > base
                    || old_track.first_traf_merged) ==> (#[trigger] track.samples@[
                k]).decode_timestamp == track.samples@[k - 1].decode_timestamp + track.samples@[k
                - 1].duration,
            (track.samples@.len() > base && !old_track.first_traf_merged) ==> track.samples@[
                base].decode_timestamp as int == (match traf.tfdt {
                Some(td) => td.base_media_decode_time as int,
                None => 0int,
            }),
            forall|t2: int, j2: int|
                0 <= t2 < ti && 0 <= j2 < traf.truns@[t2].sample_count
                    ==> #[trigger] frag_run_sample_ok(
                    traf,
                    trex,
                    moof_start,
                    last_run_position,
                    timescale,
                    base,
                    track.samples@,
                    t2,
                    j2,
                ),
            (track.samples@.len() > base) ==> lr as int == track.samples@[track.samples@.len()
                - 1].offset + track.samples@[track.samples@.len() - 1].size,
            (track.samples@.len() == base) ==> lr == last_run_position,
            track.samples@.len() == base + truns_total(traf.truns@.take(ti as int)),
        decreases trun_count - ti,
    {
        let trun = &traf.truns[ti];
        let count: u32 = trun.sample_count;
        let mut j: u32 = 0;
        while j < count
            invariant
                trun_count == traf.truns@.len(),
                ti < trun_count,
                trun == &traf.truns@[ti as int],
                count == trun.sample_count,
                j <= count,
                base == old_track.samples@.len() as int,
                timescale == old_track.timescale,
                track.track_id == old_track.track_id,
                track.width == old_track.width,
                track.height == old_track.height,
                track.timescale == old_track.timescale,
                track.duration == old_track.duration,
                track.kind == old_track.kind,
                track.data == old_track.data,
                track.first_traf_merged == old_track.first_traf_merged,
                tfdt_base == (match traf.tfdt {
                    Some(td) => Some(td.base_media_decode_time),
                    None => None,
                }),
                track.samples@.len() >= base,
                track.samples@.take(base) == old_track.samples@,
                merged == (old_track.first_traf_merged || track.samples@.len() > base),
                merged ==> track.samples@.len() > 0 && prev_dts == track.samples@[
                    track.samples@.len() - 1].decode_timestamp && prev_dur == track.samples@[
                    track.samples@.len() - 1].duration,
                forall|k: int|
                    base <= k < track.samples@.len() && k > 0 && (k > base
                        || old_track.first_traf_merged) ==> (#[trigger] track.samples@[
                    k]).decode_timestamp == track.samples@[k - 1].decode_timestamp
                        + track.samples@[k - 1].duration,
                (track.samples@.len() > base && !old_track.first_traf_merged) ==> track.samples@[
                    base].decode_timestamp as int == (match traf.tfdt {
                    Some(td) => td.base_media_decode_time as int,
                    None => 0int,
                }),
                forall|t2: int, j2: int|
                    0 <= t2 < ti && 0 <= j2 < traf.truns@[t2].sample_count
                        ==> #[trigger] frag_run_sample_ok(
                        traf,
                        trex,
                        moof_start,
                        last_run_position,
                        timescale,
                        base,
                        track.samples@,
                        t2,
                        j2,
                    ),
                forall|j2: int|
                    0 <= j2 < j ==> #[trigger] frag_run_sample_ok(
                        traf,
                        trex,
                        moof_start,
                        last_run_position,
                        timescale,
                        base,
                        track.samples@,
                        ti as int,
                        j2,
                    ),
                (track.samples@.len() > base) ==> lr as int == track.samples@[track.samples@.len()
                    - 1].offset + track.samples@[track.samples@.len() - 1].size,
                (track.samples@.len() == base) ==> lr == last_run_position,
                track.samples@.len() == base + truns_total(traf.truns@.take(ti as int)) + j,
            decreases count - j,
        {
            proof {
                // a failing sample means the fragment carries at least one
                lemma_truns_total_take_step(traf.truns@, ti as int);
                lemma_truns_total_nonneg(traf.truns@.take(ti as int));
                lemma_truns_total_take_le(traf.truns@, ti as int + 1);
            }
            if track.samples.len() > u32::MAX as usize {
                return Err(Error::MalformedContainer("sample index overflow"));
            }
            let id: u32 = track.samples.len() as u32;
            let s = match fragment_sample(
                trun,
                &traf.tfhd,
                trex,
                tfdt_base,
                timescale,
                moof_start,
                lr,
                ti as u64,
                j as u64,
                !merged,
                prev_dts,
                prev_dur,
                id,
            ) {
                Ok(s) => s,
                Err(e) => {
                    return Err(e);
                },
            };
            if s.size > u64::MAX - s.offset {
                return Err(Error::MalformedContainer("sample extent overflow"));
            }
            let ghost pre = track.samples@;
            track.samples.push(s);
            proof {
                assert(track.samples@.take(base) =~= old_track.samples@);
                assert forall|t2: int, j2: int|
                    0 <= t2 <= ti as int && 0 <= j2 < traf.truns@[t2].sample_count && (t2
                        < ti as int || j2 < j as int) implies #[trigger] frag_run_sample_ok(
                    traf,
                    trex,
                    moof_start,
                    last_run_position,
                    timescale,
                    base,
                    track.samples@,
                    t2,
                    j2,
                ) by {
                    lemma_truns_total_nonneg(traf.truns@.take(t2));
                    assert(frag_run_sample_ok(
                        traf,
                        trex,
                        moof_start,
                        last_run_position,
                        timescale,
                        base,
                        pre,
                        t2,
                        j2,
                    ));
                    let k = base + truns_total(traf.truns@.take(t2)) + j2;
                    assert(track.samples@[k] == pre[k]);
                    if k > base {
                        assert(track.samples@[k - 1] == pre[k - 1]);
                    }
                }
                assert(frag_run_sample_ok(
                    traf,
                    trex,
                    moof_start,
                    last_run_position,
                    timescale,
                    base,
                    track.samples@,
                    ti as int,
                    j as int,
                ));
            }
            lr = s.offset + s.size;
            prev_dts = s.decode_timestamp;
            prev_dur = s.duration;
            merged = true;
            j = j + 1;
        }
        proof {
            lemma_truns_total_take_step(traf.truns@, ti as int);
        }
        ti = ti + 1;
    }
    proof {
        assert(traf.truns@.take(trun_count as int) =~= traf.truns@);
    }
    track.first_traf_merged = merged;
    Ok((track, lr))
}

/// The first `trak` box with the given track id, when one exists.
pub open spec fn trak_for(traks: Seq<TrakBox>, id: u32) -> Option<TrakBox>
    decreases traks.len(),
{
    if traks.len() == 0 {
        None
    } else if traks[0].tkhd.track_id == id {
        Some(traks[0])
    } else {
        trak_for(traks.skip(1), id)
    }
}

pub proof fn lemma_trak_for_at(traks: Seq<TrakBox>, id: u32, k: int)
    requires
        0 <= k < traks.len(),
        traks[k].tkhd.track_id == id,
        forall|q: int| 0 <= q < k ==> (#[trigger] traks[q]).tkhd.track_id != id,
    ensures
        trak_for(traks, id) == Some(traks[k]),
    decreases k,
{
    if k > 0 {
        assert(traks[0].tkhd.track_id != id);
        assert(traks.skip(1)[k - 1] == traks[k]);
        assert forall|q: int| 0 <= q < k - 1 implies (#[trigger] traks.skip(1)[q]).tkhd.track_id
            != id by {
            assert(traks.skip(1)[q] == traks[q + 1]);
        }
        lemma_trak_for_at(traks.skip(1), id, k - 1);
    }
}

pub proof fn lemma_trak_for_none(traks: Seq<TrakBox>, id: u32)
    requires
        forall|q: int| 0 <= q < traks.len() ==> (#[trigger] traks[q]).tkhd.track_id != id,
    ensures
        trak_for(traks, id) is None,
    decreases traks.len(),
{
    if traks.len() > 0 {
        assert(traks[0].tkhd.track_id != id);
        assert forall|q: int|
            0 <= q < traks.skip(1).len() implies (#[trigger] traks.skip(1)[q]).tkhd.track_id
            != id by {
            assert(traks.skip(1)[q] == traks[q + 1]);
        }
        lemma_trak_for_none(traks.skip(1), id);
    }
}

/// Track ids are pairwise distinct.
pub open spec fn tracks_have_unique_ids(ts: Seq<Track>) -> bool {
    forall|i: int, j: int|
        0 <= i < j < ts.len() ==> (#[trigger] ts[i]).track_id != (#[trigger] ts[j]).track_id
}

/// Everything the flat builder promises of a whole track built from one
/// `trak` box.
pub open spec fn flat_track_ok(trak: &TrakBox, t: &Track) -> bool {
    let stbl = &trak.mdia.minf.stbl;
    &&& t.track_id == trak.tkhd.track_id
    &&& t.timescale == trak.mdia.mdhd.timescale as u64
    &&& t.duration == trak.mdia.mdhd.duration
    &&& t.kind == crate::mp4box::stsd::stsd_kind(&stbl.stsd.contents)
    &&& t.width as int == trak.tkhd.width.value_spec()
    &&& t.height as int == trak.tkhd.height.value_spec()
    &&& !t.first_traf_merged
    &&& t.data@.len() == 0
    &&& t.samples@.len() == stsz_total(&stbl.stsz)
    &&& forall|j: int| 0 <= j < t.samples@.len() ==> flat_sample_ok(trak, #[trigger] t.samples@[j], j)
    &&& forall|j: int|
        0 <= j < t.samples@.len() - 1 ==> (#[trigger] t.samples@[j]).decode_timestamp
            + t.samples@[j].duration == t.samples@[j + 1].decode_timestamp
    &&& forall|j: int|
        0 <= j < t.samples@.len() - 1 ==> (#[trigger] t.samples@[j]).duration == stts_delta_of(
            stbl.stts.entries@,
            j,
        )
    &&& t.samples@.len() > 0 ==> t.samples@[t.samples@.len() - 1].duration
        == trak.mdia.mdhd.duration - flat_dts_of(stbl.stts.entries@, t.samples@.len() - 1)
    &&& t.samples@.len() > 0 ==> exists|c: int|
        1 <= c <= stbl_chunk_count(stbl) && #[trigger] chunk_cum(stbl.stsc.entries@, c)
            >= t.samples@.len() && chunk_cum(stbl.stsc.entries@, c - 1) <= t.samples@.len()
}

/// The track was built, complete with its flat sample list, from one of
/// the movie's `trak` boxes.
pub open spec fn track_from_some_trak(moov: &MoovBox, t: Track) -> bool {
    exists|k: int|
        0 <= k < moov.traks@.len() && flat_track_ok(&(#[trigger] moov.traks@[k]), &t)
}

/// Every `trak` box's id is carried by some built track.
pub open spec fn all_trak_ids_present(moov: &MoovBox, ts: Seq<Track>) -> bool {
    forall|k: int|
        0 <= k < moov.traks@.len() ==> exists|i: int|
            0 <= i < ts.len() && (#[trigger] ts[i]).track_id == (#[trigger] moov.traks@[
            k]).tkhd.track_id
}

/// Builds one track per `trak` box of the movie; a later `trak` with the
/// same track id replaces the earlier one, so ids come out unique.
pub fn build_tracks(moov: &MoovBox) -> (r: Result<Vec<Track>, Error>)
    ensures
        r matches Ok(ts) ==> tracks_have_unique_ids(ts@),
        r matches Ok(ts) ==> forall|i: int|
            0 <= i < ts@.len() ==> track_from_some_trak(moov, #[trigger] ts@[i]),
        r matches Ok(ts) ==> all_trak_ids_present(moov, ts@),
        r matches Err(e) ==> e is MalformedContainer || e is MissingRequiredBox,
        r matches Err(e) ==> (e matches Error::MissingRequiredBox(bt) ==> bt == BoxType::StcoBox),
        r is Err ==> exists|k: int|
            0 <= k < moov.traks@.len() && !flat_build_ok(&(#[trigger] moov.traks@[k])),
{
    let mut tracks: Vec<Track> = Vec::new();
    let mut ti: usize = 0;
    let n = moov.traks.len();
    while ti < n
        invariant
            ti <= n,
            n == moov.traks@.len(),
            tracks_have_unique_ids(tracks@),
            forall|i: int|
                0 <= i < tracks@.len() ==> track_from_some_trak(moov, #[trigger] tracks@[i]),
            forall|k: int|
                0 <= k < ti ==> exists|i: int|
                    0 <= i < tracks@.len() && (#[trigger] tracks@[i]).track_id == (
                    #[trigger] moov.traks@[k]).tkhd.track_id,
        decreases n - ti,
    {
        let trak = &moov.traks[ti];
        let samples = match build_track_samples(trak) {
            Ok(s) => s,
            Err(e) => {
                return Err(e);
            },
        };
        let track = Track {
            first_traf_merged: false,
            width: trak.tkhd.width.value(),
            height: trak.tkhd.height.value(),
            track_id: trak.tkhd.track_id,
            timescale: trak.mdia.mdhd.timescale as u64,
            duration: trak.mdia.mdhd.duration,
            kind: trak.mdia.minf.stbl.stsd.kind(),
            samples,
            data: Vec::new(),
        };
        proof {
            assert(flat_track_ok(&moov.traks@[ti as int], &track));
        }
        // a repeated track id replaces the earlier track
        let mut existing: usize = tracks.len();
        let mut si: usize = 0;
        while si < tracks.len()
            invariant
                si <= tracks@.len(),
                tracks_have_unique_ids(tracks@),
                existing == tracks@.len() || (existing < si && tracks@[
                    existing as int].track_id == track.track_id),
                forall|q: int|
                    0 <= q < si && q != existing ==> (#[trigger] tracks@[q]).track_id
                        != track.track_id,
            decreases tracks@.len() - si,
        {
            if existing == tracks.len() && tracks[si].track_id == track.track_id {
                existing = si;
            }
            si = si + 1;
        }
        if existing < tracks.len() {
            let ghost before = tracks@;
            let _old = tracks.remove(existing);
            tracks.insert(existing, track);
            proof {
                assert(tracks@ =~= before.update(existing as int, track));
                assert(forall|i: int|
                    0 <= i < tracks@.len() && i != existing ==> tracks@[i] == before[i]);
                assert forall|k: int| 0 <= k < ti + 1 implies exists|i: int|
                    0 <= i < tracks@.len() && (#[trigger] tracks@[i]).track_id == (
                    #[trigger] moov.traks@[k]).tkhd.track_id by {
                    if k == ti {
                        assert(tracks@[existing as int].track_id == moov.traks@[
                            k].tkhd.track_id);
                    } else {
                        let w = choose|i: int|
                            0 <= i < before.len() && (#[trigger] before[i]).track_id
                                == moov.traks@[k].tkhd.track_id;
                        assert(tracks@[w].track_id == before[w].track_id);
                    }
                }
            }
        } else {
            let ghost before = tracks@;
            tracks.push(track);
            proof {
                assert forall|k: int| 0 <= k < ti + 1 implies exists|i: int|
                    0 <= i < tracks@.len() && (#[trigger] tracks@[i]).track_id == (
                    #[trigger] moov.traks@[k]).tkhd.track_id by {
                    if k == ti {
                        assert(tracks@[tracks@.len() - 1].track_id == moov.traks@[
                            k].tkhd.track_id);
                    } else {
                        let w = choose|i: int|
                            0 <= i < before.len() && (#[trigger] before[i]).track_id
                                == moov.traks@[k].tkhd.track_id;
                        assert(tracks@[w].track_id == before[w].track_id);
                    }
                }
            }
        }
        ti = ti + 1;
    }
    proof {
        assert forall|k: int| 0 <= k < moov.traks@.len() implies exists|i: int|
            0 <= i < tracks@.len() && (#[trigger] tracks@[i]).track_id == (#[trigger] moov.traks@[
            k]).tkhd.track_id by {
            assert(0 <= k < ti as int);
        }
        assert(all_trak_ids_present(moov, tracks@));
    }
    Ok(tracks)
}

/// The samples the runs of one track fragment contribute to track `id`:
/// all of them when the fragment references the track, none otherwise.
pub open spec fn traf_total_for(trafs: Seq<TrafBox>, id: u32) -> int
    decreases trafs.len(),
{
    if trafs.len() == 0 {
        0
    } else {
        traf_total_for(trafs.drop_last(), id) + (if trafs.last().tfhd.track_id == id {
            truns_total(trafs.last().truns@)
        } else {
            0int
        })
    }
}

pub proof fn lemma_traf_total_for_take_step(trafs: Seq<TrafBox>, i: int, id: u32)
    requires
        0 <= i < trafs.len(),
    ensures
        traf_total_for(trafs.take(i + 1), id) == traf_total_for(trafs.take(i), id) + (
        if trafs[i].tfhd.track_id == id {
            truns_total(trafs[i].truns@)
        } else {
            0int
        }),
{
    assert(trafs.take(i + 1).drop_last() =~= trafs.take(i));
    assert(trafs.take(i + 1).last() == trafs[i]);
}

pub proof fn lemma_traf_total_for_nonneg(trafs: Seq<TrafBox>, id: u32)
    ensures
        traf_total_for(trafs, id) >= 0,
    decreases trafs.len(),
{
    if trafs.len() > 0 {
        lemma_traf_total_for_nonneg(trafs.drop_last(), id);
        lemma_truns_total_nonneg(trafs.last().truns@);
    }
}

/// The samples the fragments contribute to track `id`, over every
/// fragment in file order.
pub open spec fn moofs_total_for(moofs: Seq<MoofBox>, id: u32) -> int
    decreases moofs.len(),
{
    if moofs.len() == 0 {
        0
    } else {
        moofs_total_for(moofs.drop_last(), id) + traf_total_for(moofs.last().trafs@, id)
    }
}

pub proof fn lemma_moofs_total_for_take_step(moofs: Seq<MoofBox>, i: int, id: u32)
    requires
        0 <= i < moofs.len(),
    ensures
        moofs_total_for(moofs.take(i + 1), id) == moofs_total_for(moofs.take(i), id)
            + traf_total_for(moofs[i].trafs@, id),
{
    assert(moofs.take(i + 1).drop_last() =~= moofs.take(i));
    assert(moofs.take(i + 1).last() == moofs[i]);
}

pub proof fn lemma_moofs_total_for_nonneg(moofs: Seq<MoofBox>, id: u32)
    ensures
        moofs_total_for(moofs, id) >= 0,
    decreases moofs.len(),
{
    if moofs.len() > 0 {
        lemma_moofs_total_for_nonneg(moofs.drop_last(), id);
        lemma_traf_total_for_nonneg(moofs.last().trafs@, id);
    }
}

/// Whether the movie-extends box declares defaults for track `id`.
pub open spec fn has_trex_for(mvex: &MvexBox, id: u32) -> bool {
    exists|x: int| 0 <= x < mvex.trexs@.len() && (#[trigger] mvex.trexs@[x]).track_id == id
}

/// The all-zero track-extends defaults a movie without a movie-extends
/// box falls back to.
pub open spec fn zero_trex(id: u32) -> TrexBox {
    TrexBox {
        version: 0,
        flags: 0,
        track_id: id,
        default_sample_description_index: 0,
        default_sample_duration: 0,
        default_sample_size: 0,
        default_sample_flags: 0,
    }
}

/// The first track-extends record for track `id`, or the all-zero
/// defaults when none matches.
pub open spec fn first_trex(trexs: Seq<TrexBox>, id: u32) -> TrexBox
    decreases trexs.len(),
{
    if trexs.len() == 0 {
        zero_trex(id)
    } else if trexs[0].track_id == id {
        trexs[0]
    } else {
        first_trex(trexs.skip(1), id)
    }
}

pub proof fn lemma_first_trex_at(trexs: Seq<TrexBox>, id: u32, k: int)
    requires
        0 <= k < trexs.len(),
        trexs[k].track_id == id,
        forall|q: int| 0 <= q < k ==> (#[trigger] trexs[q]).track_id != id,
    ensures
        first_trex(trexs, id) == trexs[k],
    decreases k,
{
    if k > 0 {
        assert(trexs[0].track_id != id);
        assert(trexs.skip(1)[k - 1] == trexs[k]);
        assert forall|q: int| 0 <= q < k - 1 implies (#[trigger] trexs.skip(1)[q]).track_id
            != id by {
            assert(trexs.skip(1)[q] == trexs[q + 1]);
        }
        lemma_first_trex_at(trexs.skip(1), id, k - 1);
    }
}

/// The movie-extends defaults the merger uses for track `id`.
pub open spec fn trex_for(moov: &MoovBox, id: u32) -> TrexBox {
    match moov.mvex {
        Some(mv) => first_trex(mv.trexs@, id),
        None => zero_trex(id),
    }
}

/// One fragment's runs, every sample of every run satisfying the
/// per-sample merge promises against the same previous-run position.
pub open spec fn traf_runs_ok(
    traf: &TrafBox,
    trex: &TrexBox,
    moof_start: u64,
    lrp: u64,
    timescale: u64,
    base: int,
    s: Seq<Sample>,
) -> bool {
    forall|t: int, j: int|
        0 <= t < traf.truns@.len() && 0 <= j < traf.truns@[t].sample_count
            ==> #[trigger] frag_run_sample_ok(traf, trex, moof_start, lrp, timescale, base, s, t, j)
}

/// Everything the merger promises of the samples that the track fragment
/// at coordinates `m`, `f` contributed to the track that began as `o`,
/// stated over the track's final sample list `s`: the fragment's first
/// appended index is the per-track total of the fragments before it,
/// some previous-run position resolves every one of its runs there, and
/// the first sample a track ever receives takes the fragment's base
/// decode time, or zero without one.
pub open spec fn update_traf_ok(
    moov: &MoovBox,
    moofs: Seq<MoofBox>,
    o: Track,
    s: Seq<Sample>,
    m: int,
    f: int,
) -> bool {
    let base = o.samples@.len() + moofs_total_for(moofs.take(m), o.track_id) + traf_total_for(
        moofs[m].trafs@.take(f),
        o.track_id,
    );
    &&& (exists|lrp: u64|
        #[trigger] traf_runs_ok(
            &moofs[m].trafs@[f],
            &trex_for(moov, o.track_id),
            moofs[m].start,
            lrp,
            o.timescale,
            base,
            s,
        ))
    &&& ((base == o.samples@.len() && truns_total(moofs[m].trafs@[f].truns@) > 0
        && o.samples@.len() < s.len()) ==> s[o.samples@.len() as int].decode_timestamp as int == (
    match moofs[m].trafs@[f].tfdt {
        Some(td) => td.base_media_decode_time as int,
        None => 0int,
    }))
}

/// Every track fragment strictly before coordinates `m_lim`, `f_lim` (in
/// file order) references a track the list carries and, when the movie
/// declares movie-extends defaults, has a matching track-extends record.
pub open spec fn trafs_resolvable_to(
    moov: &MoovBox,
    moofs: Seq<MoofBox>,
    ts: Seq<Track>,
    m_lim: int,
    f_lim: int,
) -> bool {
    forall|m2: int, f2: int|
        0 <= m2 < moofs.len() && 0 <= f2 < moofs[m2].trafs@.len() && (m2 < m_lim || (m2 == m_lim
            && f2 < f_lim)) ==> traf_resolvable(
            moov,
            ts,
            (#[trigger] moofs[m2].trafs@[f2]).tfhd.track_id,
        )
}

/// The track list carries the id, and the movie's extends-defaults, when
/// it declares any, include a record for it.
pub open spec fn traf_resolvable(moov: &MoovBox, ts: Seq<Track>, id: u32) -> bool {
    &&& exists|i: int| 0 <= i < ts.len() && (#[trigger] ts[i]).track_id == id
    &&& (moov.mvex matches Some(mv) ==> has_trex_for(&mv, id))
}

pub proof fn lemma_traf_total_for_take_mono(trafs: Seq<TrafBox>, a: int, b: int, id: u32)
    requires
        0 <= a <= b <= trafs.len(),
    ensures
        traf_total_for(trafs.take(a), id) <= traf_total_for(trafs.take(b), id),
    decreases b - a,
{
    if a < b {
        lemma_traf_total_for_take_mono(trafs, a, b - 1, id);
        lemma_traf_total_for_take_step(trafs, b - 1, id);
        lemma_truns_total_nonneg(trafs[b - 1].truns@);
    }
}

pub proof fn lemma_moofs_total_for_take_mono(moofs: Seq<MoofBox>, a: int, b: int, id: u32)
    requires
        0 <= a <= b <= moofs.len(),
    ensures
        moofs_total_for(moofs.take(a), id) <= moofs_total_for(moofs.take(b), id),
    decreases b - a,
{
    if a < b {
        lemma_moofs_total_for_take_mono(moofs, a, b - 1, id);
        lemma_moofs_total_for_take_step(moofs, b - 1, id);
        lemma_traf_total_for_nonneg(moofs[b - 1].trafs@, id);
    }
}

/// A positive run total comes from some run with samples.
pub proof fn lemma_truns_total_pos(truns: Seq<TrunBox>)
    requires
        truns_total(truns) > 0,
    ensures
        exists|t: int| 0 <= t < truns.len() && (#[trigger] truns[t]).sample_count > 0,
    decreases truns.len(),
{
    if truns.len() > 0 {
        if truns.last().sample_count > 0 {
            assert(truns[truns.len() - 1].sample_count > 0);
        } else {
            lemma_truns_total_pos(truns.drop_last());
            let t = choose|t: int|
                0 <= t < truns.drop_last().len() && (#[trigger] truns.drop_last()[
                t]).sample_count > 0;
            assert(truns[t].sample_count > 0);
        }
    }
}

/// A fragment's per-sample promises, once they hold of a track's sample
/// list, hold of any extension of it: every index they speak of lies
/// below the old length.
pub proof fn lemma_update_traf_ok_extend(
    moov: &MoovBox,
    moofs: Seq<MoofBox>,
    o: Track,
    s1: Seq<Sample>,
    s2: Seq<Sample>,
    m: int,
    f: int,
)
    requires
        0 <= m < moofs.len(),
        0 <= f < moofs[m].trafs@.len(),
        update_traf_ok(moov, moofs, o, s1, m, f),
        s1.len() <= s2.len(),
        s2.take(s1.len() as int) == s1,
    ensures
        update_traf_ok(moov, moofs, o, s2, m, f),
{
    let id = o.track_id;
    let base = o.samples@.len() + moofs_total_for(moofs.take(m), id) + traf_total_for(
        moofs[m].trafs@.take(f),
        id,
    );
    lemma_moofs_total_for_nonneg(moofs.take(m), id);
    lemma_traf_total_for_nonneg(moofs[m].trafs@.take(f), id);
    let lrp0 = choose|lrp: u64|
        #[trigger] traf_runs_ok(
            &moofs[m].trafs@[f],
            &trex_for(moov, id),
            moofs[m].start,
            lrp,
            o.timescale,
            base,
            s1,
        );
    assert forall|t: int, j: int|
        0 <= t < moofs[m].trafs@[f].truns@.len() && 0 <= j < moofs[m].trafs@[f].truns@[
        t].sample_count implies #[trigger] frag_run_sample_ok(
        &moofs[m].trafs@[f],
        &trex_for(moov, id),
        moofs[m].start,
        lrp0,
        o.timescale,
        base,
        s2,
        t,
        j,
    ) by {
        assert(frag_run_sample_ok(
            &moofs[m].trafs@[f],
            &trex_for(moov, id),
            moofs[m].start,
            lrp0,
            o.timescale,
            base,
            s1,
            t,
            j,
        ));
        lemma_truns_total_nonneg(moofs[m].trafs@[f].truns@.take(t));
        let k = base + truns_total(moofs[m].trafs@[f].truns@.take(t)) + j;
        assert(s2.take(s1.len() as int)[k] == s2[k]);
        if k > base {
            assert(s2.take(s1.len() as int)[k - 1] == s2[k - 1]);
        }
    }
    assert(traf_runs_ok(
        &moofs[m].trafs@[f],
        &trex_for(moov, id),
        moofs[m].start,
        lrp0,
        o.timescale,
        base,
        s2,
    ));
    if base == o.samples@.len() && truns_total(moofs[m].trafs@[f].truns@) > 0
        && o.samples@.len() < s2.len() {
        lemma_truns_total_pos(moofs[m].trafs@[f].truns@);
        let t0 = choose|t: int|
            0 <= t < moofs[m].trafs@[f].truns@.len() && (#[trigger] moofs[m].trafs@[f].truns@[
            t]).sample_count > 0;
        lemma_truns_total_nonneg(moofs[m].trafs@[f].truns@.take(t0));
        assert(frag_run_sample_ok(
            &moofs[m].trafs@[f],
            &trex_for(moov, id),
            moofs[m].start,
            lrp0,
            o.timescale,
            base,
            s1,
            t0,
            0,
        ));
        assert(o.samples@.len() < s1.len());
        assert(s2.take(s1.len() as int)[o.samples@.len() as int] == s2[o.samples@.len() as int]);
    }
}

/// Extends every referenced track with the samples of every fragment, in
/// file order, threading the global "previous run position" between
/// fragments exactly as the byte-offset rules require.  A fragment that
/// references an unknown track id is a fatal error, as is a missing
/// track-extends record when the movie declares a movie-extends box; a
/// movie without one falls back to all-zero defaults.
pub fn update_sample_list(moov: &MoovBox, moofs: &Vec<MoofBox>, tracks: Vec<Track>) -> (r: Result<
    Vec<Track>,
    Error,
>)
    requires
        forall|i: int| 0 <= i < tracks@.len() ==> !(#[trigger] tracks@[i]).first_traf_merged,
        tracks_have_unique_ids(tracks@),
    ensures
        r matches Ok(ts) ==> {
            &&& ts@.len() == tracks@.len()
            &&& forall|i: int|
                0 <= i < ts@.len() ==> {
                    let t = #[trigger] ts@[i];
                    let o = tracks@[i];
                    &&& t.track_id == o.track_id
                    &&& t.width == o.width
                    &&& t.height == o.height
                    &&& t.timescale == o.timescale
                    &&& t.duration == o.duration
                    &&& t.kind == o.kind
                    &&& t.data == o.data
                    &&& t.samples@.len() >= o.samples@.len()
                    &&& t.samples@.len() == o.samples@.len() + moofs_total_for(
                        moofs@,
                        o.track_id,
                    )
                    &&& t.samples@.take(o.samples@.len() as int) == o.samples@
                    &&& t.first_traf_merged == (t.samples@.len() > o.samples@.len())
                    &&& (moofs_total_for(moofs@, o.track_id) == 0 ==> t.samples@ == o.samples@)
                    &&& forall|k: int|
                        o.samples@.len() < k < t.samples@.len() ==> (#[trigger] t.samples@[
                        k]).decode_timestamp == t.samples@[k - 1].decode_timestamp + t.samples@[k
                            - 1].duration
                    &&& forall|m: int, f: int|
                        0 <= m < moofs@.len() && 0 <= f < moofs@[m].trafs@.len() && moofs@[
                        m].trafs@[f].tfhd.track_id == o.track_id ==> #[trigger] update_traf_ok(
                            moov,
                            moofs@,
                            o,
                            t.samples@,
                            m,
                            f,
                        )
                }
        },
        r is Ok ==> trafs_resolvable_to(moov, moofs@, tracks@, moofs@.len() as int, 0),
        moofs@.len() == 0 ==> r is Ok,
        (exists|m: int, f: int|
            0 <= m < moofs@.len() && 0 <= f < moofs@[m].trafs@.len() && !traf_resolvable(
                moov,
                tracks@,
                (#[trigger] moofs@[m].trafs@[f]).tfhd.track_id,
            )) ==> r is Err,
        r matches Err(e) ==> e is MalformedContainer || e is MissingRequiredBox
            || e is UnresolvedTrackReference,
        r matches Err(e) ==> (e matches Error::MissingRequiredBox(bt) ==> bt == BoxType::TrexBox),
        r matches Err(e) ==> (e is MalformedContainer ==> exists|m: int, f: int|
            0 <= m < moofs@.len() && 0 <= f < moofs@[m].trafs@.len() && truns_total(
                (#[trigger] moofs@[m].trafs@[f]).truns@,
            ) > 0),
        r matches Err(e) ==> (e matches Error::UnresolvedTrackReference(id) ==> (exists|
            m: int,
            f: int,
        |
            0 <= m < moofs@.len() && 0 <= f < moofs@[m].trafs@.len() && (#[trigger] moofs@[
            m].trafs@[f]).tfhd.track_id == id) && forall|i: int|
            0 <= i < tracks@.len() ==> (#[trigger] tracks@[i]).track_id != id),
        r matches Err(e) ==> (e is MissingRequiredBox ==> (moov.mvex matches Some(mv)
            && exists|m: int, f: int|
            0 <= m < moofs@.len() && 0 <= f < moofs@[m].trafs@.len() && !has_trex_for(
                &mv,
                (#[trigger] moofs@[m].trafs@[f]).tfhd.track_id,
            ))),
{
    let ghost orig = tracks@;
    let mut cur = tracks;
    let mut last_run_position: u64 = 0;
    let mut mi: usize = 0;
    let moof_count = moofs.len();
    while mi < moof_count
        invariant
            mi <= moof_count,
            moof_count == moofs@.len(),
            orig == tracks@,
            cur@.len() == orig.len(),
            tracks_have_unique_ids(orig),
            forall|i: int|
                0 <= i < cur@.len() ==> {
                    let t = #[trigger] cur@[i];
                    let o = orig[i];
                    &&& t.track_id == o.track_id
                    &&& t.width == o.width
                    &&& t.height == o.height
                    &&& t.timescale == o.timescale
                    &&& t.duration == o.duration
                    &&& t.kind == o.kind
                    &&& t.data == o.data
                    &&& t.samples@.len() >= o.samples@.len()
                    &&& t.samples@.len() == o.samples@.len() + moofs_total_for(
                        moofs@.take(mi as int),
                        o.track_id,
                    )
                    &&& t.samples@.take(o.samples@.len() as int) == o.samples@
                    &&& t.first_traf_merged == (t.samples@.len() > o.samples@.len())
                    &&& forall|k: int|
                        o.samples@.len() < k < t.samples@.len() ==> (#[trigger] t.samples@[
                        k]).decode_timestamp == t.samples@[k - 1].decode_timestamp + t.samples@[k
                            - 1].duration
                    &&& forall|m2: int, f2: int|
                        0 <= m2 < mi && 0 <= f2 < moofs@[m2].trafs@.len() && moofs@[m2].trafs@[
                        f2].tfhd.track_id == o.track_id ==> #[trigger] update_traf_ok(
                            moov,
                            moofs@,
                            o,
                            t.samples@,
                            m2,
                            f2,
                        )
                },
            trafs_resolvable_to(moov, moofs@, orig, mi as int, 0),
        decreases moof_count - mi,
    {
        let moof = &moofs[mi];
        let mut fi: usize = 0;
        let traf_count = moof.trafs.len();
        while fi < traf_count
            invariant
                fi <= traf_count,
                moof_count == moofs@.len(),
                mi < moof_count,
                moof == &moofs@[mi as int],
                traf_count == moof.trafs@.len(),
                orig == tracks@,
                cur@.len() == orig.len(),
                tracks_have_unique_ids(orig),
                forall|i: int|
                    0 <= i < cur@.len() ==> {
                        let t = #[trigger] cur@[i];
                        let o = orig[i];
                        &&& t.track_id == o.track_id
                        &&& t.width == o.width
                        &&& t.height == o.height
                        &&& t.timescale == o.timescale
                        &&& t.duration == o.duration
                        &&& t.kind == o.kind
                        &&& t.data == o.data
                        &&& t.samples@.len() >= o.samples@.len()
                        &&& t.samples@.len() == o.samples@.len() + moofs_total_for(
                            moofs@.take(mi as int),
                            o.track_id,
                        ) + traf_total_for(moof.trafs@.take(fi as int), o.track_id)
                        &&& t.samples@.take(o.samples@.len() as int) == o.samples@
                        &&& t.first_traf_merged == (t.samples@.len() > o.samples@.len())
                        &&& forall|k: int|
                            o.samples@.len() < k < t.samples@.len() ==> (#[trigger] t.samples@[
                            k]).decode_timestamp == t.samples@[k - 1].decode_timestamp
                                + t.samples@[k - 1].duration
                        &&& forall|m2: int, f2: int|
                            ((0 <= m2 < mi && 0 <= f2 < moofs@[m2].trafs@.len()) || (m2
                                == mi as int && 0 <= f2 < fi)) && moofs@[m2].trafs@[
                            f2].tfhd.track_id == o.track_id ==> #[trigger] update_traf_ok(
                                moov,
                                moofs@,
                                o,
                                t.samples@,
                                m2,
                                f2,
                            )
                    },
                trafs_resolvable_to(moov, moofs@, orig, mi as int, fi as int),
            decreases traf_count - fi,
        {
            let traf = &moof.trafs[fi];
            let track_id: u32 = traf.tfhd.track_id;
            // the referenced track must exist
            let mut idx: usize = cur.len();
            let mut si: usize = 0;
            while si < cur.len()
                invariant
                    si <= cur@.len(),
                    idx == cur@.len() || (idx < cur@.len() && cur@[
                        idx as int].track_id == track_id),
                    forall|q: int|
                        0 <= q < si && idx == cur@.len() ==> (#[trigger] cur@[
                        q]).track_id != track_id,
                decreases cur@.len() - si,
            {
                if idx == cur.len() && cur[si].track_id == track_id {
                    idx = si;
                }
                si = si + 1;
            }
            if idx >= cur.len() {
                proof {
                    assert(moofs@[mi as int].trafs@[fi as int].tfhd.track_id == track_id);
                    assert(exists|m: int, f: int|
                        0 <= m < moofs@.len() && 0 <= f < moofs@[m].trafs@.len() && (
                        #[trigger] moofs@[m].trafs@[f]).tfhd.track_id == track_id);
                    assert forall|i: int| 0 <= i < tracks@.len() implies (#[trigger] tracks@[
                        i]).track_id != track_id by {
                        assert(cur@[i].track_id == orig[i].track_id);
                    }
                }
                return Err(Error::UnresolvedTrackReference(track_id));
            }
            // the movie-level extends-defaults for the track: the first
            // matching record, or all zeroes when the movie has no
            // movie-extends box
            let trex: TrexBox = match &moov.mvex {
                Some(mvex) => {
                    let mut found: usize = mvex.trexs.len();
                    let mut xi: usize = 0;
                    while xi < mvex.trexs.len()
                        invariant
                            xi <= mvex.trexs@.len(),
                            found == mvex.trexs@.len() || (found < xi && mvex.trexs@[
                                found as int].track_id == track_id),
                            forall|q: int|
                                0 <= q < xi && q < found ==> (
                                #[trigger] mvex.trexs@[q]).track_id != track_id,
                        decreases mvex.trexs@.len() - xi,
                    {
                        if found == mvex.trexs.len() && mvex.trexs[xi].track_id == track_id {
                            found = xi;
                        }
                        xi = xi + 1;
                    }
                    if found < mvex.trexs.len() {
                        proof {
                            lemma_first_trex_at(mvex.trexs@, track_id, found as int);
                            assert(mvex.trexs@[found as int] == trex_for(moov, track_id));
                        }
                        mvex.trexs[found]
                    } else {
                        proof {
                            assert(!has_trex_for(mvex, track_id));
                            assert(moofs@[mi as int].trafs@[fi as int].tfhd.track_id == track_id);
                        }
                        return Err(Error::MissingRequiredBox(BoxType::TrexBox));
                    }
                },
                None => TrexBox::empty(track_id),
            };
            proof {
                assert(trex == trex_for(moov, track_id));
                assert(moov.mvex matches Some(mv) ==> has_trex_for(&mv, track_id));
                assert(orig[idx as int].track_id == track_id);
                assert(traf_resolvable(moov, orig, track_id));
            }
            let ghost before = cur@;
            let ghost pre_lr = last_run_position;
            let track = cur.remove(idx);
            let (merged, lr) = match merge_traf(
                track,
                &trex,
                traf,
                moof.start,
                last_run_position,
            ) {
                Ok(p) => p,
                Err(e) => {
                    proof {
                        // a merge failure needs at least one run sample
                        assert(before[idx as int].samples@.len() >= orig[
                            idx as int].samples@.len());
                        assert(truns_total(moofs@[mi as int].trafs@[fi as int].truns@) > 0);
                    }
                    return Err(e);
                },
            };
            last_run_position = lr;
            cur.insert(idx, merged);
            proof {
                assert(cur@ =~= before.update(idx as int, merged));
                let o = orig[idx as int];
                let inp = before[idx as int];
                let ol = o.samples@.len() as int;
                let b2 = inp.samples@.len() as int;
                lemma_truns_total_nonneg(traf.truns@);
                assert(merged.samples@.take(b2) == inp.samples@);
                assert forall|k: int| 0 <= k < b2 implies merged.samples@[k] == inp.samples@[
                    k] by {
                    assert(merged.samples@.take(b2)[k] == merged.samples@[k]);
                }
                assert(merged.samples@.take(ol) =~= inp.samples@.take(ol));
                assert forall|k: int|
                    ol < k < merged.samples@.len() implies (#[trigger] merged.samples@[
                    k]).decode_timestamp == merged.samples@[k - 1].decode_timestamp
                    + merged.samples@[k - 1].duration by {
                    if k < b2 {
                        assert(inp.samples@[k].decode_timestamp == inp.samples@[k
                            - 1].decode_timestamp + inp.samples@[k - 1].duration);
                    } else if k == b2 {
                        assert(b2 > ol);
                        assert(inp.first_traf_merged);
                    }
                }
                // the per-track appended totals advance by this fragment's runs
                assert forall|i: int| 0 <= i < cur@.len() implies cur@[i].samples@.len()
                    == orig[i].samples@.len() + moofs_total_for(
                    moofs@.take(mi as int),
                    orig[i].track_id,
                ) + traf_total_for(moof.trafs@.take(fi as int + 1), orig[i].track_id) by {
                    lemma_traf_total_for_take_step(moof.trafs@, fi as int, orig[i].track_id);
                    if i != idx as int {
                        assert(orig[i].track_id != orig[idx as int].track_id);
                        assert(cur@[i] == before[i]);
                    }
                }
                // the fragment just merged keeps its per-sample promises on
                // the merged track
                let id0 = orig[idx as int].track_id;
                let base0 = orig[idx as int].samples@.len() + moofs_total_for(
                    moofs@.take(mi as int),
                    id0,
                ) + traf_total_for(moof.trafs@.take(fi as int), id0);
                assert(inp.samples@.len() as int == base0);
                assert forall|t2: int, j2: int|
                    0 <= t2 < moofs@[mi as int].trafs@[fi as int].truns@.len() && 0 <= j2 < moofs@[
                    mi as int].trafs@[fi as int].truns@[t2].sample_count implies
                    #[trigger] frag_run_sample_ok(
                    &moofs@[mi as int].trafs@[fi as int],
                    &trex_for(moov, id0),
                    moofs@[mi as int].start,
                    pre_lr,
                    orig[idx as int].timescale,
                    base0,
                    merged.samples@,
                    t2,
                    j2,
                ) by {
                    assert(frag_run_sample_ok(
                        traf,
                        &trex,
                        moof.start,
                        pre_lr,
                        inp.timescale,
                        base0,
                        merged.samples@,
                        t2,
                        j2,
                    ));
                }
                assert(traf_runs_ok(
                    &moofs@[mi as int].trafs@[fi as int],
                    &trex_for(moov, id0),
                    moofs@[mi as int].start,
                    pre_lr,
                    orig[idx as int].timescale,
                    base0,
                    merged.samples@,
                ));
                if base0 == orig[idx as int].samples@.len() && truns_total(
                    moofs@[mi as int].trafs@[fi as int].truns@,
                ) > 0 {
                    assert(!inp.first_traf_merged);
                    assert(merged.samples@.len() > inp.samples@.len());
                }
                assert(update_traf_ok(
                    moov,
                    moofs@,
                    orig[idx as int],
                    merged.samples@,
                    mi as int,
                    fi as int,
                ));
                // earlier fragments' promises survive: every index they
                // speak of lies in the preserved prefix
                assert forall|i: int, m2: int, f2: int|
                    0 <= i < cur@.len() && ((0 <= m2 < mi as int && 0 <= f2 < moofs@[
                    m2].trafs@.len()) || (m2 == mi as int && 0 <= f2 < fi as int)) && moofs@[
                    m2].trafs@[f2].tfhd.track_id == orig[i].track_id implies
                    #[trigger] update_traf_ok(
                    moov,
                    moofs@,
                    orig[i],
                    cur@[i].samples@,
                    m2,
                    f2,
                ) by {
                    assert(update_traf_ok(moov, moofs@, orig[i], before[i].samples@, m2, f2));
                    if i == idx as int {
                        assert(cur@[i] == merged);
                        lemma_update_traf_ok_extend(
                            moov,
                            moofs@,
                            orig[i],
                            inp.samples@,
                            merged.samples@,
                            m2,
                            f2,
                        );
                    } else {
                        assert(cur@[i] == before[i]);
                    }
                }
                assert forall|i: int, m2: int, f2: int|
                    0 <= i < cur@.len() && ((0 <= m2 < mi as int && 0 <= f2 < moofs@[
                    m2].trafs@.len()) || (m2 == mi as int && 0 <= f2 < fi as int + 1)) && moofs@[
                    m2].trafs@[f2].tfhd.track_id == orig[i].track_id implies
                    #[trigger] update_traf_ok(
                    moov,
                    moofs@,
                    orig[i],
                    cur@[i].samples@,
                    m2,
                    f2,
                ) by {
                    if m2 == mi as int && f2 == fi as int {
                        if i != idx as int {
                            assert(orig[i].track_id != orig[idx as int].track_id);
                        }
                        assert(i == idx as int);
                        assert(cur@[i] == merged);
                    }
                }
                // every fragment through this one resolves
                assert forall|m2: int, f2: int|
                    0 <= m2 < moofs@.len() && 0 <= f2 < moofs@[m2].trafs@.len() && (m2
                        < mi as int || (m2 == mi as int && f2 < fi as int + 1)) implies
                    traf_resolvable(
                    moov,
                    orig,
                    (#[trigger] moofs@[m2].trafs@[f2]).tfhd.track_id,
                ) by {
                    if m2 == mi as int && f2 == fi as int {
                        assert(moofs@[m2].trafs@[f2].tfhd.track_id == track_id);
                    }
                }
                assert(trafs_resolvable_to(moov, moofs@, orig, mi as int, fi as int + 1));
            }
            fi = fi + 1;
        }
        proof {
            assert(moof.trafs@.take(traf_count as int) =~= moof.trafs@);
            assert forall|i: int| 0 <= i < cur@.len() implies cur@[i].samples@.len()
                == orig[i].samples@.len() + moofs_total_for(
                moofs@.take(mi as int + 1),
                orig[i].track_id,
            ) by {
                lemma_moofs_total_for_take_step(moofs@, mi as int, orig[i].track_id);
            }
            assert forall|i: int, m2: int, f2: int|
                0 <= i < cur@.len() && 0 <= m2 < mi as int + 1 && 0 <= f2 < moofs@[
                m2].trafs@.len() && moofs@[m2].trafs@[f2].tfhd.track_id == orig[
                i].track_id implies #[trigger] update_traf_ok(
                moov,
                moofs@,
                orig[i],
                cur@[i].samples@,
                m2,
                f2,
            ) by {
                if m2 == mi as int {
                    assert(f2 < traf_count as int);
                }
            }
            assert forall|m2: int, f2: int|
                0 <= m2 < moofs@.len() && 0 <= f2 < moofs@[m2].trafs@.len() && (m2 < mi as int + 1
                    || (m2 == mi as int + 1 && f2 < 0)) implies traf_resolvable(
                moov,
                orig,
                (#[trigger] moofs@[m2].trafs@[f2]).tfhd.track_id,
            ) by {
                if m2 == mi as int {
                    assert(f2 < traf_count as int);
                }
            }
            assert(trafs_resolvable_to(moov, moofs@, orig, mi as int + 1, 0));
        }
        mi = mi + 1;
    }
    proof {
        assert(moofs@.take(moof_count as int) =~= moofs@);
        assert forall|i: int|
            0 <= i < cur@.len() && moofs_total_for(moofs@, orig[i].track_id)
                == 0 implies cur@[i].samples@ == orig[i].samples@ by {
            assert(cur@[i].samples@.take(orig[i].samples@.len() as int) =~= cur@[
            i].samples@);
        }
        assert(trafs_resolvable_to(moov, moofs@, tracks@, moofs@.len() as int, 0));
        assert forall|m: int, f: int|
            0 <= m < moofs@.len() && 0 <= f < moofs@[m].trafs@.len() implies traf_resolvable(
            moov,
            tracks@,
            (#[trigger] moofs@[m].trafs@[f]).tfhd.track_id,
        ) by {}
    }
    Ok(cur)
}


/// The summed sizes of the first `i` samples.
pub open spec fn sizes_prefix_sum(s: Seq<Sample>, i: int) -> int
    decreases i,
{
    if i <= 0 {
        0
    } else {
        sizes_prefix_sum(s, i - 1) + s[i - 1].size
    }
}

/// The conditions under which materialization succeeds: every sample's
/// byte extent lies within the source, and where a zero track duration is
/// recomputed, the final sample's end fits in 64 bits.
pub open spec fn load_extents_ok(src: Seq<u8>, tracks: Seq<Track>) -> bool {
    &&& forall|i: int, j: int|
        0 <= i < tracks.len() && 0 <= j < tracks[i].samples@.len() ==> (#[trigger] tracks[
        i].samples@[j]).offset + tracks[i].samples@[j].size <= src.len()
    &&& forall|i: int|
        0 <= i < tracks.len() && (#[trigger] tracks[i]).duration == 0 && tracks[
            i].samples@.len() > 0 ==> tracks[i].samples@[tracks[i].samples@.len()
            - 1].decode_timestamp + tracks[i].samples@[tracks[i].samples@.len() - 1].duration
            <= u64::MAX
}

/// Copies every sample's bytes out of the byte source into one contiguous
/// buffer per track, rewrites each sample offset to its position in that
/// buffer, and fills in a zero track duration from the final sample.
pub fn load_track_data(data: &[u8], tracks: Vec<Track>) -> (r: Result<Vec<Track>, Error>)
    ensures
        r matches Ok(ts) ==> {
            &&& ts@.len() == tracks@.len()
            &&& forall|i: int|
                0 <= i < ts@.len() ==> {
                    let t = #[trigger] ts@[i];
                    let o = tracks@[i];
                    &&& t.track_id == o.track_id
                    &&& t.width == o.width
                    &&& t.height == o.height
                    &&& t.timescale == o.timescale
                    &&& t.kind == o.kind
                    &&& t.first_traf_merged == o.first_traf_merged
                    &&& t.samples@.len() == o.samples@.len()
                    &&& t.data@.len() == sizes_prefix_sum(o.samples@, o.samples@.len() as int)
                    &&& (forall|j: int|
                        0 <= j < t.samples@.len() ==> {
                            let ns = #[trigger] t.samples@[j];
                            let os = o.samples@[j];
                            &&& ns.id == os.id
                            &&& ns.is_sync == os.is_sync
                            &&& ns.size == os.size
                            &&& ns.timescale == os.timescale
                            &&& ns.decode_timestamp == os.decode_timestamp
                            &&& ns.composition_timestamp == os.composition_timestamp
                            &&& ns.duration == os.duration
                            &&& ns.offset == sizes_prefix_sum(o.samples@, j)
                        })
                    &&& (forall|j: int|
                        0 <= j < t.samples@.len() ==> #[trigger] t.data@.subrange(
                            sizes_prefix_sum(o.samples@, j),
                            sizes_prefix_sum(o.samples@, j) + o.samples@[j].size,
                        ) == data@.subrange(
                            o.samples@[j].offset as int,
                            o.samples@[j].offset + o.samples@[j].size,
                        ))
                    &&& t.duration == (if o.duration != 0 {
                        o.duration as int
                    } else if o.samples@.len() > 0 {
                        o.samples@[o.samples@.len() - 1].decode_timestamp + o.samples@[
                            o.samples@.len() - 1].duration
                    } else {
                        0int
                    })
                }
        },
        r matches Err(e) ==> e is Io || e is MalformedContainer,
        r is Err ==> !load_extents_ok(data@, tracks@),
{
    let ghost orig = tracks@;
    let mut rest = tracks;
    let mut out: Vec<Track> = Vec::new();
    while rest.len() > 0
        invariant
            orig == tracks@,
            out@.len() + rest@.len() == orig.len(),
            rest@ == orig.subrange(out@.len() as int, orig.len() as int),
            forall|i: int|
                0 <= i < out@.len() ==> {
                    let t = #[trigger] out@[i];
                    let o = orig[i];
                    &&& t.track_id == o.track_id
                    &&& t.width == o.width
                    &&& t.height == o.height
                    &&& t.timescale == o.timescale
                    &&& t.kind == o.kind
                    &&& t.first_traf_merged == o.first_traf_merged
                    &&& t.samples@.len() == o.samples@.len()
                    &&& t.data@.len() == sizes_prefix_sum(o.samples@, o.samples@.len() as int)
                    &&& (forall|j: int|
                        0 <= j < t.samples@.len() ==> {
                            let ns = #[trigger] t.samples@[j];
                            let os = o.samples@[j];
                            &&& ns.id == os.id
                            &&& ns.is_sync == os.is_sync
                            &&& ns.size == os.size
                            &&& ns.timescale == os.timescale
                            &&& ns.decode_timestamp == os.decode_timestamp
                            &&& ns.composition_timestamp == os.composition_timestamp
                            &&& ns.duration == os.duration
                            &&& ns.offset == sizes_prefix_sum(o.samples@, j)
                        })
                    &&& (forall|j: int|
                        0 <= j < t.samples@.len() ==> #[trigger] t.data@.subrange(
                            sizes_prefix_sum(o.samples@, j),
                            sizes_prefix_sum(o.samples@, j) + o.samples@[j].size,
                        ) == data@.subrange(
                            o.samples@[j].offset as int,
                            o.samples@[j].offset + o.samples@[j].size,
                        ))
                    &&& t.duration == (if o.duration != 0 {
                        o.duration as int
                    } else if o.samples@.len() > 0 {
                        o.samples@[o.samples@.len() - 1].decode_timestamp + o.samples@[
                            o.samples@.len() - 1].duration
                    } else {
                        0int
                    })
                },
        decreases rest@.len(),
    {
        let ghost oi = out@.len() as int;
        let t = rest.remove(0);
        let ghost o = t;
        proof {
            assert(orig[oi] == o);
        }
        let mut new_samples: Vec<Sample> = Vec::new();
        let mut buf: Vec<u8> = Vec::new();
        let count = t.samples.len();
        let mut j: usize = 0;
        while j < count
            invariant
                orig == tracks@,
                0 <= oi < orig.len(),
                t == orig[oi],
                count == t.samples@.len(),
                j <= count,
                new_samples@.len() == j,
                buf@.len() == sizes_prefix_sum(t.samples@, j as int),
                forall|q: int|
                    0 <= q < j ==> {
                        let ns = #[trigger] new_samples@[q];
                        let os = t.samples@[q];
                        &&& ns.id == os.id
                        &&& ns.is_sync == os.is_sync
                        &&& ns.size == os.size
                        &&& ns.timescale == os.timescale
                        &&& ns.decode_timestamp == os.decode_timestamp
                        &&& ns.composition_timestamp == os.composition_timestamp
                        &&& ns.duration == os.duration
                        &&& ns.offset == sizes_prefix_sum(t.samples@, q)
                    },
                forall|q: int|
                    0 <= q < j ==> #[trigger] buf@.subrange(
                        sizes_prefix_sum(t.samples@, q),
                        sizes_prefix_sum(t.samples@, q) + t.samples@[q].size,
                    ) == data@.subrange(
                        t.samples@[q].offset as int,
                        t.samples@[q].offset + t.samples@[q].size,
                    ),
            decreases count - j,
        {
            let s = t.samples[j];
            let data_off: u64 = buf.len() as u64;
            let mut chunk = match crate::byteio::copy_bytes(data, s.offset, s.size) {
                Ok(v) => v,
                Err(e) => {
                    proof {
                        assert(tracks@[oi].samples@[j as int].offset + tracks@[oi].samples@[
                        j as int].size > data@.len());
                    }
                    return Err(e);
                },
            };
            let ghost prev_buf = buf@;
            buf.append(&mut chunk);
            proof {
                lemma_sizes_prefix_nonneg(t.samples@, j as int);
                assert(buf@.subrange(
                    sizes_prefix_sum(t.samples@, j as int),
                    sizes_prefix_sum(t.samples@, j as int) + t.samples@[j as int].size,
                ) =~= data@.subrange(
                    t.samples@[j as int].offset as int,
                    t.samples@[j as int].offset + t.samples@[j as int].size,
                ));
                assert forall|q: int| 0 <= q < j implies #[trigger] buf@.subrange(
                    sizes_prefix_sum(t.samples@, q),
                    sizes_prefix_sum(t.samples@, q) + t.samples@[q].size,
                ) == data@.subrange(
                    t.samples@[q].offset as int,
                    t.samples@[q].offset + t.samples@[q].size,
                ) by {
                    lemma_sizes_prefix_nonneg(t.samples@, q);
                    lemma_sizes_prefix_mono(t.samples@, q + 1, j as int);
                    assert(sizes_prefix_sum(t.samples@, q + 1) == sizes_prefix_sum(t.samples@, q)
                        + t.samples@[q].size);
                    assert(buf@.subrange(
                        sizes_prefix_sum(t.samples@, q),
                        sizes_prefix_sum(t.samples@, q) + t.samples@[q].size,
                    ) =~= prev_buf.subrange(
                        sizes_prefix_sum(t.samples@, q),
                        sizes_prefix_sum(t.samples@, q) + t.samples@[q].size,
                    ));
                }
            }
            new_samples.push(Sample { offset: data_off, ..s });
            j = j + 1;
        }
        let duration: u64 = if t.duration != 0 {
            t.duration
        } else if count > 0 {
            let last = t.samples[count - 1];
            if last.duration > u64::MAX - last.decode_timestamp {
                proof {
                    assert(tracks@[oi].duration == 0 && tracks@[oi].samples@.len() > 0);
                }
                return Err(Error::MalformedContainer("track duration overflow"));
            }
            last.decode_timestamp + last.duration
        } else {
            0
        };
        out.push(
            Track {
                first_traf_merged: t.first_traf_merged,
                width: t.width,
                height: t.height,
                track_id: t.track_id,
                timescale: t.timescale,
                duration,
                kind: t.kind,
                samples: new_samples,
                data: buf,
            },
        );
        proof {
            assert(orig[oi] == o);
            assert(rest@ =~= orig.subrange(out@.len() as int, orig.len() as int));
        }
    }
    Ok(out)
}

/// Prefix sums of sample sizes are never negative.
pub proof fn lemma_sizes_prefix_nonneg(s: Seq<Sample>, i: int)
    ensures
        sizes_prefix_sum(s, i) >= 0,
    decreases i,
{
    if i > 0 {
        lemma_sizes_prefix_nonneg(s, i - 1);
    }
}

/// Prefix sums of sample sizes only grow.
pub proof fn lemma_sizes_prefix_mono(s: Seq<Sample>, a: int, b: int)
    requires
        a <= b,
    ensures
        sizes_prefix_sum(s, a) <= sizes_prefix_sum(s, b),
    decreases b - a,
{
    if a < b {
        lemma_sizes_prefix_mono(s, a, b - 1);
    }
}

/// The top-level box scan accepts the bytes from position `p` on: every
/// header decodes, no box declares more bytes than the whole input, no box
/// end leaves the 64-bit range, and the walk ends at the input's end or at
/// a box of declared size zero.  What the boxes contain is not this
/// predicate's concern.
pub open spec fn top_scan_ok(s: Seq<u8>, p: int) -> bool
    decreases (if p < s.len() { s.len() - p } else { 0int }),
{
    if p >= s.len() {
        true
    } else if !crate::mp4box::header_parse_ok(s, p) {
        false
    } else if crate::mp4box::header_size(s, p) > s.len() {
        false
    } else if crate::mp4box::header_size(s, p) == 0 {
        true
    } else if p + 8 + crate::mp4box::header_size(s, p) > u64::MAX {
        false
    } else {
        top_scan_ok(
            s,
            p + crate::mp4box::header_len(s, p) - 8 + crate::mp4box::header_size(s, p),
        )
    }
}

/// The top-level scan from position `p` reads a box of type `t` before it
/// stops.
pub open spec fn top_has(s: Seq<u8>, p: int, t: BoxType) -> bool
    decreases (if p < s.len() { s.len() - p } else { 0int }),
{
    if p >= s.len() {
        false
    } else if !crate::mp4box::header_parse_ok(s, p) {
        false
    } else if crate::mp4box::header_size(s, p) > s.len() {
        false
    } else if crate::mp4box::header_size(s, p) == 0 {
        false
    } else if p + 8 + crate::mp4box::header_size(s, p) > u64::MAX {
        false
    } else if crate::mp4box::header_name(s, p) == t {
        true
    } else {
        top_has(s, p + crate::mp4box::header_len(s, p) - 8 + crate::mp4box::header_size(s, p), t)
    }
}

/// How many boxes of type `t` the top-level scan from position `p` reads
/// before it stops.
pub open spec fn top_count(s: Seq<u8>, p: int, t: BoxType) -> int
    decreases (if p < s.len() { s.len() - p } else { 0int }),
{
    if p >= s.len() {
        0
    } else if !crate::mp4box::header_parse_ok(s, p) {
        0
    } else if crate::mp4box::header_size(s, p) > s.len() {
        0
    } else if crate::mp4box::header_size(s, p) == 0 {
        0
    } else if p + 8 + crate::mp4box::header_size(s, p) > u64::MAX {
        0
    } else {
        (if crate::mp4box::header_name(s, p) == t {
            1int
        } else {
            0int
        }) + top_count(
            s,
            p + crate::mp4box::header_len(s, p) - 8 + crate::mp4box::header_size(s, p),
            t,
        )
    }
}

/// The track carries the identity a `trak` box declares: its id, its
/// media timescale, its kind, and its presentation size.
pub open spec fn track_identity_ok(trak: &TrakBox, t: Track) -> bool {
    &&& t.track_id == trak.tkhd.track_id
    &&& t.timescale == trak.mdia.mdhd.timescale as u64
    &&& t.kind == crate::mp4box::stsd::stsd_kind(&trak.mdia.minf.stbl.stsd.contents)
    &&& t.width as int == trak.tkhd.width.value_spec()
    &&& t.height as int == trak.tkhd.height.value_spec()
}

/// The track's identity comes from one of the movie's `trak` boxes.
pub open spec fn track_identity_from_some_trak(moov: &MoovBox, t: Track) -> bool {
    exists|k: int|
        0 <= k < moov.traks@.len() && track_identity_ok(&(#[trigger] moov.traks@[k]), t)
}

/// A track built from some `trak` box carries that box's identity.
pub proof fn lemma_built_track_identity(moov: &MoovBox, t: Track)
    requires
        track_from_some_trak(moov, t),
    ensures
        track_identity_from_some_trak(moov, t),
{
    let k = choose|k: int|
        0 <= k < moov.traks@.len() && flat_track_ok(&(#[trigger] moov.traks@[k]), &t);
    assert(track_identity_ok(&moov.traks@[k], t));
}

/// Identity carries over to any track with the same identity fields.
pub proof fn lemma_identity_same_fields(moov: &MoovBox, a: Track, b: Track)
    requires
        track_identity_from_some_trak(moov, a),
        b.track_id == a.track_id,
        b.timescale == a.timescale,
        b.kind == a.kind,
        b.width == a.width,
        b.height == a.height,
    ensures
        track_identity_from_some_trak(moov, b),
{
    let k = choose|k: int|
        0 <= k < moov.traks@.len() && track_identity_ok(&(#[trigger] moov.traks@[k]), a);
    assert(track_identity_ok(&moov.traks@[k], b));
}

/// Prefix sums agree between two sample lists whose sizes agree.
pub proof fn lemma_sizes_prefix_congruent(a: Seq<Sample>, b: Seq<Sample>, i: int)
    requires
        a.len() == b.len(),
        forall|j: int| 0 <= j < a.len() ==> (#[trigger] a[j]).size == b[j].size,
        i <= a.len(),
    ensures
        sizes_prefix_sum(a, i) == sizes_prefix_sum(b, i),
    decreases i,
{
    if i > 0 {
        lemma_sizes_prefix_congruent(a, b, i - 1);
    }
}

/// A parsed movie: the file-type box, the movie box, the fragments and
/// event messages in file order, and the reconstructed tracks with their
/// materialized sample data.
#[derive(Debug, Clone)]
pub struct Mp4 {
    pub ftyp: crate::mp4box::ftyp::FtypBox,
    pub moov: MoovBox,
    pub moofs: Vec<MoofBox>,
    pub emsgs: Vec<crate::mp4box::emsg::EmsgBox>,
    pub tracks: Vec<Track>,
}

/// A track is materialized: every sample's offset is the summed size of
/// the samples before it, and the data buffer is exactly long enough.
pub open spec fn track_materialized(t: &Track) -> bool {
    &&& t.data@.len() == sizes_prefix_sum(t.samples@, t.samples@.len() as int)
    &&& forall|j: int|
        0 <= j < t.samples@.len() ==> (#[trigger] t.samples@[j]).offset == sizes_prefix_sum(
            t.samples@,
            j,
        )
}

impl Mp4 {
    /// Scans the top-level box sequence: `ftyp` and `moov` are kept, the
    /// fragments and event messages collected in file order, and all other
    /// boxes skipped.  A box with a declared size of zero ends the scan.
    fn scan_top_level(data: &[u8]) -> (r: Result<
        (
            Option<crate::mp4box::ftyp::FtypBox>,
            Option<MoovBox>,
            Vec<MoofBox>,
            Vec<crate::mp4box::emsg::EmsgBox>,
        ),
        Error,
    >)
        ensures
            r is Ok ==> top_scan_ok(data@, 0),
            r matches Err(e) ==> crate::mp4box::child_error(e),
            r matches Ok(p) ==> (p.0 is Some <==> top_has(
                data@,
                0,
                crate::mp4box::BoxType::FtypBox,
            )),
            r matches Ok(p) ==> (p.1 is Some <==> top_has(
                data@,
                0,
                crate::mp4box::BoxType::MoovBox,
            )),
            r matches Ok(p) ==> p.2@.len() == top_count(
                data@,
                0,
                crate::mp4box::BoxType::MoofBox,
            ),
            r matches Ok(p) ==> p.3@.len() == top_count(
                data@,
                0,
                crate::mp4box::BoxType::EmsgBox,
            ),
    {
        let size: u64 = data.len() as u64;
        let mut ftyp: Option<crate::mp4box::ftyp::FtypBox> = None;
        let mut moov: Option<MoovBox> = None;
        let mut moofs: Vec<MoofBox> = Vec::new();
        let mut emsgs: Vec<crate::mp4box::emsg::EmsgBox> = Vec::new();
        let mut current: u64 = 0;
        let mut stopped: bool = false;
        while current < size && !stopped
            invariant
                size == data@.len(),
                top_scan_ok(data@, 0) == top_scan_ok(data@, current as int),
                (ftyp is Some || top_has(data@, current as int, crate::mp4box::BoxType::FtypBox))
                    == top_has(data@, 0, crate::mp4box::BoxType::FtypBox),
                (moov is Some || top_has(data@, current as int, crate::mp4box::BoxType::MoovBox))
                    == top_has(data@, 0, crate::mp4box::BoxType::MoovBox),
                stopped ==> top_scan_ok(data@, current as int) && !top_has(
                    data@,
                    current as int,
                    crate::mp4box::BoxType::FtypBox,
                ) && !top_has(data@, current as int, crate::mp4box::BoxType::MoovBox),
                moofs@.len() + top_count(data@, current as int, crate::mp4box::BoxType::MoofBox)
                    == top_count(data@, 0, crate::mp4box::BoxType::MoofBox),
                emsgs@.len() + top_count(data@, current as int, crate::mp4box::BoxType::EmsgBox)
                    == top_count(data@, 0, crate::mp4box::BoxType::EmsgBox),
                stopped ==> top_count(data@, current as int, crate::mp4box::BoxType::MoofBox) == 0
                    && top_count(data@, current as int, crate::mp4box::BoxType::EmsgBox) == 0,
            decreases (if current < size { size - current } else { 0int }), (if stopped { 0int } else { 1int }),
        {
            let mut pos: u64 = current;
            let header = match crate::mp4box::BoxHeader::read(data, &mut pos) {
                Ok(h) => h,
                Err(e) => {
                    return Err(e);
                },
            };
            let s = header.size;
            if s > size {
                return Err(
                    Error::MalformedContainer("file contains a box with a larger size than it"),
                );
            }
            // a top-level box of declared size zero ends the scan
            if s == 0 {
                stopped = true;
                continue ;
            }
            if current > u64::MAX - 8 || s > u64::MAX - 8 - current {
                return Err(Error::MalformedContainer("box end does not fit in 64 bits"));
            }
            // the box ends a header-length past `current` plus its normalized
            // size less the plain 8; with the 64-bit size escape the header
            // is 16 bytes, so this is 8 past `current + s`
            let next: u64 = pos - 8 + s;
            proof {
                assert(pos == current + crate::mp4box::header_len(data@, current as int));
                assert(next == current + crate::mp4box::header_len(data@, current as int) - 8
                    + crate::mp4box::header_size(data@, current as int));
            }
            match header.name {
                crate::mp4box::BoxType::FtypBox => {
                    let b = match crate::mp4box::ftyp::FtypBox::read_box(data, &mut pos, s) {
                        Ok(b) => b,
                        Err(e) => {
                            return Err(e);
                        },
                    };
                    ftyp = Some(b);
                },
                crate::mp4box::BoxType::MoovBox => {
                    let b = match MoovBox::read_box(data, &mut pos, s) {
                        Ok(b) => b,
                        Err(e) => {
                            return Err(e);
                        },
                    };
                    moov = Some(b);
                },
                crate::mp4box::BoxType::MoofBox => {
                    let mut b = match MoofBox::read_box(data, &mut pos, s) {
                        Ok(b) => b,
                        Err(e) => {
                            return Err(e);
                        },
                    };
                    // the fragment's file offset is the first header byte,
                    // which with a 64-bit size escape lies 16 bytes back
                    b.start = current;
                    moofs.push(b);
                },
                crate::mp4box::BoxType::EmsgBox => {
                    let b = match crate::mp4box::emsg::EmsgBox::read_box(data, &mut pos, s) {
                        Ok(b) => b,
                        Err(e) => {
                            return Err(e);
                        },
                    };
                    emsgs.push(b);
                },
                _ => {
                    // free, mdat and unknown boxes are skipped
                },
            }
            proof {
                assert(top_scan_ok(data@, current as int) == top_scan_ok(data@, next as int));
                assert(top_has(data@, current as int, crate::mp4box::BoxType::FtypBox) == (
                crate::mp4box::header_name(data@, current as int)
                    == crate::mp4box::BoxType::FtypBox || top_has(
                    data@,
                    next as int,
                    crate::mp4box::BoxType::FtypBox,
                )));
                assert(top_has(data@, current as int, crate::mp4box::BoxType::MoovBox) == (
                crate::mp4box::header_name(data@, current as int)
                    == crate::mp4box::BoxType::MoovBox || top_has(
                    data@,
                    next as int,
                    crate::mp4box::BoxType::MoovBox,
                )));
                assert(top_count(data@, current as int, crate::mp4box::BoxType::MoofBox) == (
                if crate::mp4box::header_name(data@, current as int)
                    == crate::mp4box::BoxType::MoofBox {
                    1int
                } else {
                    0int
                }) + top_count(data@, next as int, crate::mp4box::BoxType::MoofBox));
                assert(top_count(data@, current as int, crate::mp4box::BoxType::EmsgBox) == (
                if crate::mp4box::header_name(data@, current as int)
                    == crate::mp4box::BoxType::EmsgBox {
                    1int
                } else {
                    0int
                }) + top_count(data@, next as int, crate::mp4box::BoxType::EmsgBox));
            }
            current = next;
        }
        proof {
            assert(top_scan_ok(data@, current as int));
            assert(!top_has(data@, current as int, crate::mp4box::BoxType::FtypBox));
            assert(!top_has(data@, current as int, crate::mp4box::BoxType::MoovBox));
        }
        Ok((ftyp, moov, moofs, emsgs))
    }

    /// Parses a byte sequence of top-level boxes: `ftyp` and `moov` are
    /// required, fragments and event messages are collected in file
    /// order, and everything else is skipped.  The tracks are then built
    /// from the movie box, extended from the fragments, and materialized
    /// from the same bytes.
    /// Builds, merges and materializes the tracks of an already-scanned
    /// movie, and assembles the result.
    #[verifier::rlimit(100)]
    fn assemble(
        data: &[u8],
        ftyp: crate::mp4box::ftyp::FtypBox,
        moov: MoovBox,
        moofs: Vec<MoofBox>,
        emsgs: Vec<crate::mp4box::emsg::EmsgBox>,
    ) -> (r: Result<Mp4, Error>)
        ensures
            r matches Ok(m) ==> m.moov == moov,
            r matches Ok(m) ==> m.ftyp == ftyp && m.moofs == moofs && m.emsgs == emsgs,
            r matches Ok(m) ==> tracks_have_unique_ids(m.tracks@),
            r matches Ok(m) ==> forall|i: int|
                0 <= i < m.tracks@.len() ==> track_materialized(&(#[trigger] m.tracks@[i])),
            r matches Ok(m) ==> all_trak_ids_present(&m.moov, m.tracks@),
            r matches Err(e) ==> (e matches Error::MissingRequiredBox(bt) ==> bt
                == BoxType::StcoBox || bt == BoxType::TrexBox),
            r matches Err(e) ==> (e matches Error::UnresolvedTrackReference(id) ==> (exists|
                m: int,
                f: int,
            |
                0 <= m < moofs@.len() && 0 <= f < moofs@[m].trafs@.len() && (#[trigger] moofs@[
                m].trafs@[f]).tfhd.track_id == id) && forall|k: int|
                0 <= k < moov.traks@.len() ==> (#[trigger] moov.traks@[k]).tkhd.track_id != id),
    {
        let tracks = match build_tracks(&moov) {
            Ok(t) => t,
            Err(e) => {
                return Err(e);
            },
        };
        let ghost built = tracks@;
        let tracks = match update_sample_list(&moov, &moofs, tracks) {
            Ok(t) => t,
            Err(e) => {
                proof {
                    match e {
                        Error::UnresolvedTrackReference(id) => {
                            assert forall|k: int|
                                0 <= k < moov.traks@.len() implies (#[trigger] moov.traks@[
                            k]).tkhd.track_id != id by {
                                let w = choose|i: int|
                                    0 <= i < built.len() && (#[trigger] built[i]).track_id
                                        == moov.traks@[k].tkhd.track_id;
                                assert(built[w].track_id != id);
                            }
                        },
                        _ => {},
                    }
                }
                return Err(e);
            },
        };
        let ghost pre_load = tracks@;
        let tracks = match load_track_data(data, tracks) {
            Ok(t) => t,
            Err(e) => {
                return Err(e);
            },
        };
        proof {
            assert forall|k2: int|
                0 <= k2 < moov.traks@.len() implies exists|i: int|
                0 <= i < tracks@.len() && (#[trigger] tracks@[i]).track_id == (
                #[trigger] moov.traks@[k2]).tkhd.track_id by {
                let w = choose|i: int|
                    0 <= i < built.len() && (#[trigger] built[i]).track_id == moov.traks@[
                    k2].tkhd.track_id;
                assert(tracks@[w].track_id == built[w].track_id);
            }
            assert(all_trak_ids_present(&moov, tracks@));
            assert forall|i: int|
                0 <= i < tracks@.len() implies track_materialized(
                &(#[trigger] tracks@[i]),
            ) by {
                lemma_sizes_prefix_congruent(
                    pre_load[i].samples@,
                    tracks@[i].samples@,
                    pre_load[i].samples@.len() as int,
                );
                assert forall|j: int|
                    0 <= j < tracks@[i].samples@.len() implies (#[trigger] tracks@[
                i].samples@[j]).offset == sizes_prefix_sum(tracks@[i].samples@, j) by {
                    lemma_sizes_prefix_congruent(pre_load[i].samples@, tracks@[i].samples@, j);
                }
            }
        }
        Ok(Mp4 { ftyp, moov, moofs, emsgs, tracks })
    }

    /// Parses a byte sequence of top-level boxes: `ftyp` and `moov` are
    /// required, fragments and event messages are collected in file
    /// order, and everything else is skipped.  The tracks are then built
    /// from the movie box, extended from the fragments, and materialized
    /// from the same bytes.
    pub fn read_bytes(data: &[u8]) -> (r: Result<Mp4, Error>)
        ensures
            r matches Ok(m) ==> tracks_have_unique_ids(m.tracks@) && forall|i: int|
                0 <= i < m.tracks@.len() ==> track_materialized(&(#[trigger] m.tracks@[i])),
            r is Ok ==> top_scan_ok(data@, 0),
            r is Ok ==> top_has(data@, 0, crate::mp4box::BoxType::FtypBox),
            r is Ok ==> top_has(data@, 0, crate::mp4box::BoxType::MoovBox),
            r matches Ok(m) ==> m.moofs@.len() == top_count(
                data@,
                0,
                crate::mp4box::BoxType::MoofBox,
            ),
            r matches Ok(m) ==> m.emsgs@.len() == top_count(
                data@,
                0,
                crate::mp4box::BoxType::EmsgBox,
            ),
            r matches Ok(m) ==> all_trak_ids_present(&m.moov, m.tracks@),
            r matches Err(e) ==> ((e matches Error::MissingRequiredBox(bt) && bt
                == crate::mp4box::BoxType::FtypBox) ==> !top_has(
                data@,
                0,
                crate::mp4box::BoxType::FtypBox,
            )),
            r matches Err(e) ==> ((e matches Error::MissingRequiredBox(bt) && bt
                == crate::mp4box::BoxType::MoovBox) ==> !top_has(
                data@,
                0,
                crate::mp4box::BoxType::MoovBox,
            )),
    {
        let (ftyp, moov, moofs, emsgs) = match Mp4::scan_top_level(data) {
            Ok(p) => p,
            Err(e) => {
                return Err(e);
            },
        };
        let ftyp = match ftyp {
            Some(b) => b,
            None => {
                return Err(Error::MissingRequiredBox(crate::mp4box::BoxType::FtypBox));
            },
        };
        let moov = match moov {
            Some(b) => b,
            None => {
                return Err(Error::MissingRequiredBox(crate::mp4box::BoxType::MoovBox));
            },
        };
        Mp4::assemble(data, ftyp, moov, moofs, emsgs)
    }

    /// The reconstructed tracks, in the order their `trak` boxes appear.
    pub fn tracks(&self) -> (r: &Vec<Track>)
        ensures
            r == &self.tracks,
    {
        &self.tracks
    }

    /// The track with the given id, when the movie declares one.
    pub fn track_by_id(&self, track_id: u32) -> (r: Option<&Track>)
        ensures
            match r {
                Some(t) => exists|i: int|
                    0 <= i < self.tracks@.len() && (#[trigger] self.tracks@[i]).track_id
                        == track_id && t == &self.tracks@[i],
                None => forall|i: int|
                    0 <= i < self.tracks@.len() ==> (#[trigger] self.tracks@[i]).track_id
                        != track_id,
            },
    {
        let mut i: usize = 0;
        let n = self.tracks.len();
        while i < n
            invariant
                n == self.tracks@.len(),
                forall|q: int|
                    0 <= q < i ==> (#[trigger] self.tracks@[q]).track_id != track_id,
        decreases n - i,
        {
            if self.tracks[i].track_id == track_id {
                return Some(&self.tracks[i]);
            }
            i = i + 1;
        }
        None
    }
}

impl Track {
    /// The bytes of one sample, sliced out of the materialized track
    /// buffer; nothing when the id or the sample's extent is out of range.
    pub fn read_sample(&self, sample_id: u32) -> (r: Option<&[u8]>)
        ensures
            match r {
                Some(b) => {
                    &&& (sample_id as int) < self.samples@.len()
                    &&& b@ == self.data@.subrange(
                        self.samples@[sample_id as int].offset as int,
                        self.samples@[sample_id as int].offset + self.samples@[sample_id
                            as int].size,
                    )
                },
                None => (sample_id as int) >= self.samples@.len() || self.samples@[sample_id
                    as int].offset + self.samples@[sample_id as int].size > self.data@.len(),
            },
    {
        let n = self.samples.len();
        if sample_id as usize >= n {
            return None;
        }
        let s = self.samples[sample_id as usize];
        let dlen: u64 = self.data.len() as u64;
        if s.offset > dlen || s.size > dlen - s.offset {
            return None;
        }
        Some(
            vstd::slice::slice_subrange(
                self.data.as_slice(),
                s.offset as usize,
                (s.offset + s.size) as usize,
            ),
        )
    }

    /// The movie's `trak` box this track was built from: the first one
    /// carrying the track's id, when the movie still has it.
    pub fn trak<'a>(&self, mp4: &'a Mp4) -> (r: Option<&'a TrakBox>)
        ensures
            match r {
                Some(t) => trak_for(mp4.moov.traks@, self.track_id) == Some(*t),
                None => trak_for(mp4.moov.traks@, self.track_id) is None,
            },
    {
        let n = mp4.moov.traks.len();
        let mut i: usize = 0;
        while i < n
            invariant
                i <= n,
                n == mp4.moov.traks@.len(),
                forall|q: int|
                    0 <= q < i ==> (#[trigger] mp4.moov.traks@[q]).tkhd.track_id
                        != self.track_id,
            decreases n - i,
        {
            if mp4.moov.traks[i].tkhd.track_id == self.track_id {
                proof {
                    lemma_trak_for_at(mp4.moov.traks@, self.track_id, i as int);
                }
                return Some(&mp4.moov.traks[i]);
            }
            i = i + 1;
        }
        proof {
            lemma_trak_for_none(mp4.moov.traks@, self.track_id);
        }
        None
    }

    /// The raw codec configuration record of the track's sample entry:
    /// nothing when the movie has no `trak` for the track or the codec
    /// carries no configuration record.
    pub fn raw_codec_config(&self, mp4: &Mp4) -> (r: Option<Vec<u8>>)
        ensures
            match trak_for(mp4.moov.traks@, self.track_id) {
                Some(tk) => (match r {
                    Some(v) => crate::mp4box::stsd::stsd_raw_config(
                        &tk.mdia.minf.stbl.stsd.contents,
                    ) == Some(v@),
                    None => crate::mp4box::stsd::stsd_raw_config(
                        &tk.mdia.minf.stbl.stsd.contents,
                    ) is None,
                }),
                None => r is None,
            },
    {
        match self.trak(mp4) {
            Some(tk) => tk.mdia.minf.stbl.stsd.contents.raw_codec_config(),
            None => None,
        }
    }

    /// The RFC 6381 codec string of the track's sample entry: nothing when
    /// the movie has no `trak` for the track or the codec defines none.
    pub fn codec_string(&self, mp4: &Mp4) -> (r: Option<String>)
        ensures
            match trak_for(mp4.moov.traks@, self.track_id) {
                Some(tk) => (r is Some <==> !(tk.mdia.minf.stbl.stsd.contents is Mp4a
                    || tk.mdia.minf.stbl.stsd.contents is Tx3g
                    || tk.mdia.minf.stbl.stsd.contents is Unknown)),
                None => r is None,
            },
    {
        match self.trak(mp4) {
            Some(tk) => tk.mdia.minf.stbl.stsd.contents.codec_string(),
            None => None,
        }
    }
}


} // verus!
