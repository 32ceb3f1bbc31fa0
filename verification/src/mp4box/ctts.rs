//! `ctts` — the composition-offset box: run-length encoded signed offsets
//! from decode time to composition time, covering B-frame reordering.

use crate::byteio::{be24, be32, read_i32, read_u32, sbe32};
use crate::error::Error;
use crate::mp4box::{box_start, read_box_header_ext, seek_end, BoxType, Mp4Box, ReadBox};
use vstd::prelude::*;

verus! {

#[derive(Debug, Clone, Copy, PartialEq, Eq, Structural)]
pub struct CttsEntry {
    pub sample_count: u32,
    pub sample_offset: i32,
}

#[derive(Debug, Clone, PartialEq, Eq)]
pub struct CttsBox {
    pub version: u8,
    pub flags: u32,
    pub entries: Vec<CttsEntry>,
}

impl CttsBox {
    pub fn get_type(&self) -> (t: BoxType)
        ensures
            t == BoxType::CttsBox,
    {
        BoxType::CttsBox
    }

    pub fn get_size(&self) -> (s: u64)
        requires
            self.size_spec() <= u64::MAX,
        ensures
            s as int == self.size_spec(),
    {
        8 + 4 + 4 + 8 * (self.entries.len() as u64)
    }
}

impl Mp4Box for CttsBox {
    open spec fn size_spec(&self) -> int {
        8 + 4 + 4 + 8 * (self.entries@.len() as int)
    }

    proof fn size_spec_bounds(&self) {
    }

    fn box_type(&self) -> (t: BoxType) {
        self.get_type()
    }

    fn box_size(&self) -> (s: u64) {
        self.get_size()
    }
}

/// How many 8-byte entries fit in the declared size after the 16 fixed
/// header bytes.
pub open spec fn ctts_max_entries(size: int) -> int {
    if size >= 16 {
        (size - 16) / 8
    } else {
        0
    }
}

/// True when the table at body position `p` of a box of declared size
/// `size` can be fully decoded.
pub open spec fn ctts_parse_ok(s: Seq<u8>, p: int, size: int) -> bool {
    &&& p + 8 <= s.len()
    &&& be32(s, p + 4) <= ctts_max_entries(size)
    &&& p + 8 + 8 * be32(s, p + 4) <= s.len()
    &&& p - 8 + size <= u64::MAX
}

impl ReadBox for CttsBox {
    /// Decodes the `(sample_count, signed sample_offset)` entry list; fails
    /// when the declared entry count cannot fit in the box or the data ends
    /// early.
    fn read_box(data: &[u8], pos: &mut u64, size: u64) -> (r: Result<Self, Error>)
        ensures
            match r {
                Ok(b) => {
                    &&& ctts_parse_ok(data@, *old(pos) as int, size as int)
                    &&& b.version == data@[*old(pos) as int]
                    &&& b.flags as int == be24(data@, *old(pos) + 1)
                    &&& b.entries@.len() == be32(data@, *old(pos) + 4)
                    &&& forall|i: int|
                        0 <= i < b.entries@.len() ==> {
                            &&& #[trigger] b.entries@[i].sample_count as int == be32(
                                data@,
                                *old(pos) + 8 + 8 * i,
                            )
                            &&& b.entries@[i].sample_offset as int == sbe32(
                                data@,
                                *old(pos) + 8 + 8 * i + 4,
                            )
                        }
                    &&& *final(pos) == *old(pos) - 8 + size
                },
                Err(e) => {
                    &&& !ctts_parse_ok(data@, *old(pos) as int, size as int)
                    &&& (e is Io || e is MalformedContainer)
                },
            },
    {
        let ghost p0 = *pos as int;
        let start = box_start(*pos);
        let (version, flags) = match read_box_header_ext(data, pos) {
            Ok(vf) => vf,
            Err(e) => {
                return Err(e);
            },
        };
        let entry_count = match read_u32(data, pos) {
            Ok(v) => v,
            Err(e) => {
                return Err(e);
            },
        };
        let max_entries: u64 = if size >= 16 {
            (size - 16) / 8
        } else {
            0
        };
        if entry_count as u64 > max_entries {
            return Err(
                Error::MalformedContainer(
                    "ctts entry_count indicates more entries than could fit in the box",
                ),
            );
        }
        let mut entries: Vec<CttsEntry> = Vec::new();
        let mut i: u32 = 0;
        while i < entry_count
            invariant
                p0 == *old(pos) as int,
                i <= entry_count,
                entry_count as int == be32(data@, p0 + 4),
                i > 0 ==> *pos <= data@.len(),
                *pos == p0 + 8 + 8 * i,
                p0 + 8 <= data@.len(),
                entries@.len() == i,
                forall|j: int|
                    0 <= j < i ==> {
                        &&& #[trigger] entries@[j].sample_count as int == be32(data@, p0 + 8 + 8
                            * j)
                        &&& entries@[j].sample_offset as int == sbe32(data@, p0 + 8 + 8 * j + 4)
                    },
            decreases entry_count - i,
        {
            let sample_count = match read_u32(data, pos) {
                Ok(v) => v,
                Err(e) => {
                    return Err(e);
                },
            };
            let sample_offset = match read_i32(data, pos) {
                Ok(v) => v,
                Err(e) => {
                    return Err(e);
                },
            };
            entries.push(CttsEntry { sample_count, sample_offset });
            i = i + 1;
        }
        match seek_end(pos, start, size) {
            Ok(()) => {},
            Err(e) => {
                return Err(e);
            },
        }
        Ok(CttsBox { version, flags, entries })
    }
}

} // verus!
