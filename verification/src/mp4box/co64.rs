//! `co64` — the 64-bit chunk-offset box, functionally equivalent to `stco`
//! but with 64-bit absolute file offsets.

use crate::byteio::{be24, be32, be64, read_u32, read_u64};
use crate::error::Error;
use crate::mp4box::{box_start, read_box_header_ext, seek_end, BoxType, Mp4Box, ReadBox};
use vstd::prelude::*;

verus! {

#[derive(Debug, Clone, PartialEq, Eq)]
pub struct Co64Box {
    pub version: u8,
    pub flags: u32,
    pub entries: Vec<u64>,
}

impl Co64Box {
    pub fn get_type(&self) -> (t: BoxType)
        ensures
            t == BoxType::Co64Box,
    {
        BoxType::Co64Box
    }

    pub fn get_size(&self) -> (s: u64)
        requires
            self.size_spec() <= u64::MAX,
        ensures
            s as int == self.size_spec(),
    {
        8 + 4 + 4 + 8 * (self.entries.len() as u64)
    }
}

impl Mp4Box for Co64Box {
    open spec fn size_spec(&self) -> int {
        8 + 4 + 4 + 8 * (self.entries@.len() as int)
    }

    proof fn size_spec_bounds(&self) {
    }

    fn box_type(&self) -> (t: BoxType) {
        self.get_type()
    }

    fn box_size(&self) -> (s: u64) {
        self.get_size()
    }
}

/// How many 8-byte offsets fit in the declared size after the 16 fixed
/// header bytes.
pub open spec fn co64_max_entries(size: int) -> int {
    if size >= 16 {
        (size - 16) / 8
    } else {
        0
    }
}

/// True when the table at body position `p` of a box of declared size
/// `size` can be fully decoded.
pub open spec fn co64_parse_ok(s: Seq<u8>, p: int, size: int) -> bool {
    &&& p + 8 <= s.len()
    &&& be32(s, p + 4) <= co64_max_entries(size)
    &&& p + 8 + 8 * be32(s, p + 4) <= s.len()
    &&& p - 8 + size <= u64::MAX
}

impl ReadBox for Co64Box {
    /// Decodes the per-chunk 64-bit offset list; fails when the declared
    /// entry count cannot fit in the box or the data ends early.
    fn read_box(data: &[u8], pos: &mut u64, size: u64) -> (r: Result<Self, Error>)
        ensures
            match r {
                Ok(b) => {
                    &&& co64_parse_ok(data@, *old(pos) as int, size as int)
                    &&& b.version == data@[*old(pos) as int]
                    &&& b.flags as int == be24(data@, *old(pos) + 1)
                    &&& b.entries@.len() == be32(data@, *old(pos) + 4)
                    &&& forall|i: int|
                        0 <= i < b.entries@.len() ==> #[trigger] b.entries@[i] as int == be64(
                            data@,
                            *old(pos) + 8 + 8 * i,
                        )
                    &&& *final(pos) == *old(pos) - 8 + size
                },
                Err(e) => {
                    &&& !co64_parse_ok(data@, *old(pos) as int, size as int)
                    &&& (e is Io || e is MalformedContainer)
                },
            },
    {
        let ghost p0 = *pos as int;
        let start = box_start(*pos);
        let (version, flags) = match read_box_header_ext(data, pos) {
            Ok(vf) => vf,
            Err(e) => {
                return Err(e);
            },
        };
        let entry_count = match read_u32(data, pos) {
            Ok(v) => v,
            Err(e) => {
                return Err(e);
            },
        };
        let max_entries: u64 = if size >= 16 {
            (size - 16) / 8
        } else {
            0
        };
        if entry_count as u64 > max_entries {
            return Err(
                Error::MalformedContainer(
                    "co64 entry_count indicates more entries than could fit in the box",
                ),
            );
        }
        let mut entries: Vec<u64> = Vec::new();
        let mut i: u32 = 0;
        while i < entry_count
            invariant
                p0 == *old(pos) as int,
                i <= entry_count,
                entry_count as int == be32(data@, p0 + 4),
                i > 0 ==> *pos <= data@.len(),
                *pos == p0 + 8 + 8 * i,
                p0 + 8 <= data@.len(),
                entries@.len() == i,
                forall|j: int|
                    0 <= j < i ==> #[trigger] entries@[j] as int == be64(data@, p0 + 8 + 8 * j),
            decreases entry_count - i,
        {
            let v = match read_u64(data, pos) {
                Ok(v) => v,
                Err(e) => {
                    return Err(e);
                },
            };
            entries.push(v);
            i = i + 1;
        }
        match seek_end(pos, start, size) {
            Ok(()) => {},
            Err(e) => {
                return Err(e);
            },
        }
        Ok(Co64Box { version, flags, entries })
    }
}

} // verus!
