//! `stsc` — the sample-to-chunk box: run-length encoded chunk map.  Each
//! entry says that from `first_chunk` (1-based) onward every chunk holds
//! `samples_per_chunk` samples, until the next entry's first chunk.  While
//! reading, each entry is also annotated with the 1-based number of its
//! first sample, accumulated with checked arithmetic.

use crate::byteio::{be24, be32, read_u32};
use crate::error::Error;
use crate::mp4box::{box_start, read_box_header_ext, seek_end, BoxType, Mp4Box, ReadBox};
use vstd::prelude::*;

verus! {

#[derive(Debug, Clone, Copy, PartialEq, Eq, Structural)]
pub struct StscEntry {
    pub first_chunk: u32,
    pub samples_per_chunk: u32,
    pub sample_description_index: u32,
    pub first_sample: u32,
}

#[derive(Debug, Clone, PartialEq, Eq)]
pub struct StscBox {
    pub version: u8,
    pub flags: u32,
    pub entries: Vec<StscEntry>,
}

impl StscBox {
    pub fn get_type(&self) -> (t: BoxType)
        ensures
            t == BoxType::StscBox,
    {
        BoxType::StscBox
    }

    pub fn get_size(&self) -> (s: u64)
        requires
            self.size_spec() <= u64::MAX,
        ensures
            s as int == self.size_spec(),
    {
        8 + 4 + 4 + 12 * (self.entries.len() as u64)
    }
}

impl Mp4Box for StscBox {
    open spec fn size_spec(&self) -> int {
        8 + 4 + 4 + 12 * (self.entries@.len() as int)
    }

    proof fn size_spec_bounds(&self) {
    }

    fn box_type(&self) -> (t: BoxType) {
        self.get_type()
    }

    fn box_size(&self) -> (s: u64) {
        self.get_size()
    }
}

/// How many 12-byte entries fit in the declared size after the 16 fixed
/// header bytes.
pub open spec fn stsc_max_entries(size: int) -> int {
    if size >= 16 {
        (size - 16) / 12
    } else {
        0
    }
}

/// The first-chunk field of entry `i` at body position `p`.
pub open spec fn stsc_fc(s: Seq<u8>, p: int, i: int) -> int {
    be32(s, p + 8 + 12 * i)
}

/// The samples-per-chunk field of entry `i` at body position `p`.
pub open spec fn stsc_spc(s: Seq<u8>, p: int, i: int) -> int {
    be32(s, p + 8 + 12 * i + 4)
}

/// The 1-based number of the first sample covered by entry `i`: entry 0
/// starts at sample 1, and each later entry starts after the chunks of the
/// previous run, `(first_chunk[i] - first_chunk[i-1])` chunks of
/// `samples_per_chunk[i-1]` samples each.
pub open spec fn stsc_first_sample(s: Seq<u8>, p: int, i: int) -> int
    decreases i,
{
    if i <= 0 {
        1
    } else {
        stsc_first_sample(s, p, i - 1) + (stsc_fc(s, p, i) - stsc_fc(s, p, i - 1)) * stsc_spc(
            s,
            p,
            i - 1,
        )
    }
}

/// True when every first-sample number up to entry `i` stays within 32 bits
/// with non-decreasing first-chunk fields, exactly the conditions the
/// checked accumulation enforces.
pub open spec fn stsc_chain_ok(s: Seq<u8>, p: int, i: int) -> bool
    decreases i,
{
    if i <= 0 {
        true
    } else {
        &&& stsc_chain_ok(s, p, i - 1)
        &&& stsc_fc(s, p, i) >= stsc_fc(s, p, i - 1)
        &&& (stsc_fc(s, p, i) - stsc_fc(s, p, i - 1)) * stsc_spc(s, p, i - 1) <= u32::MAX
        &&& stsc_first_sample(s, p, i) <= u32::MAX
    }
}

pub proof fn lemma_stsc_chain_ok_mono(s: Seq<u8>, p: int, k: int, j: int)
    requires
        k <= j,
        stsc_chain_ok(s, p, j),
    ensures
        stsc_chain_ok(s, p, k),
    decreases j,
{
    if k < j && j > 0 {
        lemma_stsc_chain_ok_mono(s, p, k, j - 1);
    }
}

/// True when the chunk map at body position `p` of a box of declared size
/// `size` can be fully decoded, its checked first-sample accumulation
/// included.
pub open spec fn stsc_parse_ok(s: Seq<u8>, p: int, size: int) -> bool {
    &&& p + 8 <= s.len()
    &&& be32(s, p + 4) <= stsc_max_entries(size)
    &&& p + 8 + 12 * be32(s, p + 4) <= s.len()
    &&& stsc_chain_ok(s, p, be32(s, p + 4) - 1)
    &&& p - 8 + size <= u64::MAX
}

impl ReadBox for StscBox {
    /// Decodes the chunk-map entries and annotates each with its first
    /// sample number; fails when the declared entry count cannot fit in the
    /// box, the data ends early, or the accumulation leaves 32 bits.
    fn read_box(data: &[u8], pos: &mut u64, size: u64) -> (r: Result<Self, Error>)
        ensures
            match r {
                Ok(b) => {
                    &&& stsc_parse_ok(data@, *old(pos) as int, size as int)
                    &&& b.version == data@[*old(pos) as int]
                    &&& b.flags as int == be24(data@, *old(pos) + 1)
                    &&& b.entries@.len() == be32(data@, *old(pos) + 4)
                    &&& forall|i: int|
                        0 <= i < b.entries@.len() ==> {
                            &&& #[trigger] b.entries@[i].first_chunk as int == stsc_fc(
                                data@,
                                *old(pos) as int,
                                i,
                            )
                            &&& b.entries@[i].samples_per_chunk as int == stsc_spc(
                                data@,
                                *old(pos) as int,
                                i,
                            )
                            &&& b.entries@[i].sample_description_index as int == be32(
                                data@,
                                *old(pos) + 8 + 12 * i + 8,
                            )
                            &&& b.entries@[i].first_sample as int == stsc_first_sample(
                                data@,
                                *old(pos) as int,
                                i,
                            )
                        }
                    &&& *final(pos) == *old(pos) - 8 + size
                },
                Err(e) => {
                    &&& !stsc_parse_ok(data@, *old(pos) as int, size as int)
                    &&& (e is Io || e is MalformedContainer)
                },
            },
    {
        let ghost p0 = *pos as int;
        let start = box_start(*pos);
        let (version, flags) = match read_box_header_ext(data, pos) {
            Ok(vf) => vf,
            Err(e) => {
                return Err(e);
            },
        };
        let entry_count = match read_u32(data, pos) {
            Ok(v) => v,
            Err(e) => {
                return Err(e);
            },
        };
        let max_entries: u64 = if size >= 16 {
            (size - 16) / 12
        } else {
            0
        };
        if entry_count as u64 > max_entries {
            return Err(
                Error::MalformedContainer(
                    "stsc entry_count indicates more entries than could fit in the box",
                ),
            );
        }
        let mut entries: Vec<StscEntry> = Vec::new();
        let mut prev_fc: u32 = 0;
        let mut prev_spc: u32 = 0;
        let mut fs: u32 = 1;
        let mut i: u32 = 0;
        while i < entry_count
            invariant
                p0 == *old(pos) as int,
                i <= entry_count,
                entry_count as int == be32(data@, p0 + 4),
                entry_count <= stsc_max_entries(size as int),
                i > 0 ==> *pos <= data@.len(),
                *pos == p0 + 8 + 12 * i,
                p0 + 8 <= data@.len(),
                entries@.len() == i,
                stsc_chain_ok(data@, p0, i - 1),
                i > 0 ==> {
                    &&& prev_fc as int == stsc_fc(data@, p0, i - 1)
                    &&& prev_spc as int == stsc_spc(data@, p0, i - 1)
                    &&& fs as int == stsc_first_sample(data@, p0, i - 1)
                },
                forall|j: int|
                    0 <= j < i ==> {
                        &&& #[trigger] entries@[j].first_chunk as int == stsc_fc(data@, p0, j)
                        &&& entries@[j].samples_per_chunk as int == stsc_spc(data@, p0, j)
                        &&& entries@[j].sample_description_index as int == be32(
                            data@,
                            p0 + 8 + 12 * j + 8,
                        )
                        &&& entries@[j].first_sample as int == stsc_first_sample(data@, p0, j)
                    },
            decreases entry_count - i,
        {
            let first_chunk = match read_u32(data, pos) {
                Ok(v) => v,
                Err(e) => {
                    return Err(e);
                },
            };
            let samples_per_chunk = match read_u32(data, pos) {
                Ok(v) => v,
                Err(e) => {
                    return Err(e);
                },
            };
            let sample_description_index = match read_u32(data, pos) {
                Ok(v) => v,
                Err(e) => {
                    return Err(e);
                },
            };
            if i == 0 {
                fs = 1;
            } else {
                if first_chunk < prev_fc {
                    proof {
                        assert(!stsc_chain_ok(data@, p0, i as int));
                        if stsc_chain_ok(data@, p0, be32(data@, p0 + 4) - 1) {
                            lemma_stsc_chain_ok_mono(data@, p0, i as int, be32(data@, p0 + 4) - 1);
                        }
                    }
                    return Err(
                        Error::MalformedContainer(
                            "attempt to calculate stsc sample_id with overflow",
                        ),
                    );
                }
                let diff: u64 = (first_chunk - prev_fc) as u64;
                proof {
                    assert(diff * (prev_spc as u64) <= 0xffffffffu64 * 0xffffffffu64)
                        by (nonlinear_arith)
                        requires
                            diff <= 0xffffffffu64,
                            prev_spc as u64 <= 0xffffffffu64,
                    ;
                }
                let prod: u64 = diff * (prev_spc as u64);
                if prod > u32::MAX as u64 || (fs as u64) + prod > u32::MAX as u64 {
                    proof {
                        assert(!stsc_chain_ok(data@, p0, i as int));
                        if stsc_chain_ok(data@, p0, be32(data@, p0 + 4) - 1) {
                            lemma_stsc_chain_ok_mono(data@, p0, i as int, be32(data@, p0 + 4) - 1);
                        }
                    }
                    return Err(
                        Error::MalformedContainer(
                            "attempt to calculate stsc sample_id with overflow",
                        ),
                    );
                }
                fs = fs + (prod as u32);
            }
            entries.push(
                StscEntry { first_chunk, samples_per_chunk, sample_description_index, first_sample: fs },
            );
            prev_fc = first_chunk;
            prev_spc = samples_per_chunk;
            i = i + 1;
        }
        match seek_end(pos, start, size) {
            Ok(()) => {},
            Err(e) => {
                return Err(e);
            },
        }
        Ok(StscBox { version, flags, entries })
    }
}

} // verus!
