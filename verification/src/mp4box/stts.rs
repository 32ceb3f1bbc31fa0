//! `stts` — the decoding-time-to-sample box: run-length encoded sample
//! durations.  Each entry covers `sample_count` consecutive samples, all with
//! the same `sample_delta`; the cumulative counts over the whole table must
//! reach the track's total sample count for the timeline to be buildable.

use crate::byteio::{be24, be32, read_u32};
use crate::error::Error;
use crate::mp4box::{box_start, read_box_header_ext, seek_end, BoxType, Mp4Box, ReadBox};
use vstd::prelude::*;

verus! {

#[derive(Debug, Clone, Copy, PartialEq, Eq, Structural)]
pub struct SttsEntry {
    pub sample_count: u32,
    pub sample_delta: u32,
}

#[derive(Debug, Clone, PartialEq, Eq)]
pub struct SttsBox {
    pub version: u8,
    pub flags: u32,
    pub entries: Vec<SttsEntry>,
}

impl SttsBox {
    pub fn get_type(&self) -> (t: BoxType)
        ensures
            t == BoxType::SttsBox,
    {
        BoxType::SttsBox
    }

    pub fn get_size(&self) -> (s: u64)
        requires
            self.size_spec() <= u64::MAX,
        ensures
            s as int == self.size_spec(),
    {
        8 + 4 + 4 + 8 * (self.entries.len() as u64)
    }
}

impl Mp4Box for SttsBox {
    open spec fn size_spec(&self) -> int {
        8 + 4 + 4 + 8 * (self.entries@.len() as int)
    }

    proof fn size_spec_bounds(&self) {
    }

    fn box_type(&self) -> (t: BoxType) {
        self.get_type()
    }

    fn box_size(&self) -> (s: u64) {
        self.get_size()
    }
}

/// True when the table at body position `p` (just past the plain header of a
/// box of declared size `size` starting at `p - 8`) can be fully decoded.
pub open spec fn stts_parse_ok(s: Seq<u8>, p: int, size: int) -> bool {
    &&& p + 8 <= s.len()
    &&& be32(s, p + 4) <= stts_max_entries(size)
    &&& p + 8 + 8 * be32(s, p + 4) <= s.len()
    &&& p - 8 + size <= u64::MAX
}

/// How many 8-byte entries fit in the declared size after the 16 fixed
/// header bytes.
pub open spec fn stts_max_entries(size: int) -> int {
    if size >= 16 {
        (size - 16) / 8
    } else {
        0
    }
}

impl ReadBox for SttsBox {
    /// Decodes version, flags and the `(sample_count, sample_delta)` entry
    /// list; fails when the declared entry count cannot fit in the box or
    /// the data ends early.
    #[verifier::rlimit(30)]
    fn read_box(data: &[u8], pos: &mut u64, size: u64) -> (r: Result<Self, Error>)
        ensures
            r matches Ok(b) ==> {
                &&& stts_parse_ok(data@, *old(pos) as int, size as int)
                &&& b.version == data@[*old(pos) as int]
                &&& b.flags as int == be24(data@, *old(pos) + 1)
                &&& b.entries@.len() == be32(data@, *old(pos) + 4)
                &&& forall|i: int|
                    0 <= i < b.entries@.len() ==> {
                        &&& #[trigger] b.entries@[i].sample_count as int == be32(
                            data@,
                            *old(pos) + 8 + 8 * i,
                        )
                        &&& b.entries@[i].sample_delta as int == be32(
                            data@,
                            *old(pos) + 8 + 8 * i + 4,
                        )
                    }
                &&& *final(pos) == *old(pos) - 8 + size
            },
            r matches Err(e) ==> {
                &&& !stts_parse_ok(data@, *old(pos) as int, size as int)
                &&& (e is Io || e is MalformedContainer)
                &&& (e is MalformedContainer <==> *old(pos) + 8 <= data@.len() && (be32(
                    data@,
                    *old(pos) + 4,
                ) > stts_max_entries(size as int) || (be32(data@, *old(pos) + 4)
                    <= stts_max_entries(size as int) && *old(pos) + 8 + 8 * be32(
                    data@,
                    *old(pos) + 4,
                ) <= data@.len() && *old(pos) - 8 + size > u64::MAX)))
            },
    {
        let ghost p0 = *pos as int;
        let start = box_start(*pos);
        let (version, flags) = match read_box_header_ext(data, pos) {
            Ok(vf) => vf,
            Err(e) => {
                return Err(e);
            },
        };
        let entry_count = match read_u32(data, pos) {
            Ok(v) => v,
            Err(e) => {
                return Err(e);
            },
        };
        let max_entries: u64 = if size >= 16 {
            (size - 16) / 8
        } else {
            0
        };
        if entry_count as u64 > max_entries {
            return Err(
                Error::MalformedContainer(
                    "stts entry_count indicates more entries than could fit in the box",
                ),
            );
        }
        let mut entries: Vec<SttsEntry> = Vec::new();
        let mut i: u32 = 0;
        while i < entry_count
            invariant
                p0 == *old(pos) as int,
                i <= entry_count,
                entry_count as int == be32(data@, p0 + 4),
                entry_count <= stts_max_entries(size as int),
                *pos == p0 + 8 + 8 * i,
                p0 + 8 <= data@.len(),
                i > 0 ==> *pos <= data@.len(),
                entries@.len() == i,
                forall|j: int|
                    0 <= j < i ==> {
                        &&& #[trigger] entries@[j].sample_count as int == be32(data@, p0 + 8 + 8
                            * j)
                        &&& entries@[j].sample_delta as int == be32(data@, p0 + 8 + 8 * j + 4)
                    },
            decreases entry_count - i,
        {
            let sample_count = match read_u32(data, pos) {
                Ok(v) => v,
                Err(e) => {
                    return Err(e);
                },
            };
            let sample_delta = match read_u32(data, pos) {
                Ok(v) => v,
                Err(e) => {
                    return Err(e);
                },
            };
            entries.push(SttsEntry { sample_count, sample_delta });
            i = i + 1;
        }
        match seek_end(pos, start, size) {
            Ok(()) => {},
            Err(e) => {
                return Err(e);
            },
        }
        proof {
            assert(stts_parse_ok(data@, p0, size as int));
        }
        Ok(SttsBox { version, flags, entries })
    }
}

} // verus!
