//! `stco` — the 32-bit chunk-offset box: one absolute file offset per chunk.

use crate::byteio::{be24, be32, read_u32};
use crate::error::Error;
use crate::mp4box::{box_start, read_box_header_ext, seek_end, BoxType, Mp4Box, ReadBox};
use vstd::prelude::*;

verus! {

#[derive(Debug, Clone, PartialEq, Eq)]
pub struct StcoBox {
    pub version: u8,
    pub flags: u32,
    pub entries: Vec<u32>,
}

impl StcoBox {
    pub fn get_type(&self) -> (t: BoxType)
        ensures
            t == BoxType::StcoBox,
    {
        BoxType::StcoBox
    }

    /// Narrows a 64-bit chunk-offset table to 32 bits; an offset that does
    /// not fit is a fatal error, never a truncated value.
    pub fn from_co64(co64: &crate::mp4box::co64::Co64Box) -> (r: Result<StcoBox, Error>)
        ensures
            r matches Ok(b) ==> {
                &&& b.version == 0
                &&& b.flags == 0
                &&& b.entries@.len() == co64.entries@.len()
                &&& forall|i: int|
                    0 <= i < b.entries@.len() ==> (#[trigger] b.entries@[i]) as int
                        == co64.entries@[i]
            },
            r is Ok <==> forall|i: int|
                0 <= i < co64.entries@.len() ==> (#[trigger] co64.entries@[i]) <= u32::MAX,
            r matches Err(e) ==> e is MalformedContainer,
    {
        let mut entries: Vec<u32> = Vec::new();
        let mut i: usize = 0;
        let n = co64.entries.len();
        while i < n
            invariant
                i <= n,
                n == co64.entries@.len(),
                entries@.len() == i,
                forall|q: int|
                    0 <= q < i ==> (#[trigger] entries@[q]) as int == co64.entries@[q],
                forall|q: int| 0 <= q < i ==> (#[trigger] co64.entries@[q]) <= u32::MAX,
            decreases n - i,
        {
            let v = co64.entries[i];
            if v > u32::MAX as u64 {
                return Err(
                    Error::MalformedContainer("64-bit chunk offset does not fit in 32 bits"),
                );
            }
            entries.push(v as u32);
            i = i + 1;
        }
        Ok(StcoBox { version: 0, flags: 0, entries })
    }

    pub fn get_size(&self) -> (s: u64)
        requires
            self.size_spec() <= u64::MAX,
        ensures
            s as int == self.size_spec(),
    {
        8 + 4 + 4 + 4 * (self.entries.len() as u64)
    }
}

impl Mp4Box for StcoBox {
    open spec fn size_spec(&self) -> int {
        8 + 4 + 4 + 4 * (self.entries@.len() as int)
    }

    proof fn size_spec_bounds(&self) {
    }

    fn box_type(&self) -> (t: BoxType) {
        self.get_type()
    }

    fn box_size(&self) -> (s: u64) {
        self.get_size()
    }
}

/// How many 4-byte offsets fit in the declared size after the 16 fixed
/// header bytes.
pub open spec fn stco_max_entries(size: int) -> int {
    if size >= 16 {
        (size - 16) / 4
    } else {
        0
    }
}

/// True when the table at body position `p` of a box of declared size
/// `size` can be fully decoded.
pub open spec fn stco_parse_ok(s: Seq<u8>, p: int, size: int) -> bool {
    &&& p + 8 <= s.len()
    &&& be32(s, p + 4) <= stco_max_entries(size)
    &&& p + 8 + 4 * be32(s, p + 4) <= s.len()
    &&& p - 8 + size <= u64::MAX
}

impl ReadBox for StcoBox {
    /// Decodes the per-chunk offset list; fails when the declared entry
    /// count cannot fit in the box or the data ends early.
    fn read_box(data: &[u8], pos: &mut u64, size: u64) -> (r: Result<Self, Error>)
        ensures
            match r {
                Ok(b) => {
                    &&& stco_parse_ok(data@, *old(pos) as int, size as int)
                    &&& b.version == data@[*old(pos) as int]
                    &&& b.flags as int == be24(data@, *old(pos) + 1)
                    &&& b.entries@.len() == be32(data@, *old(pos) + 4)
                    &&& forall|i: int|
                        0 <= i < b.entries@.len() ==> #[trigger] b.entries@[i] as int == be32(
                            data@,
                            *old(pos) + 8 + 4 * i,
                        )
                    &&& *final(pos) == *old(pos) - 8 + size
                },
                Err(e) => {
                    &&& !stco_parse_ok(data@, *old(pos) as int, size as int)
                    &&& (e is Io || e is MalformedContainer)
                },
            },
    {
        let ghost p0 = *pos as int;
        let start = box_start(*pos);
        let (version, flags) = match read_box_header_ext(data, pos) {
            Ok(vf) => vf,
            Err(e) => {
                return Err(e);
            },
        };
        let entry_count = match read_u32(data, pos) {
            Ok(v) => v,
            Err(e) => {
                return Err(e);
            },
        };
        let max_entries: u64 = if size >= 16 {
            (size - 16) / 4
        } else {
            0
        };
        if entry_count as u64 > max_entries {
            return Err(
                Error::MalformedContainer(
                    "stco entry_count indicates more entries than could fit in the box",
                ),
            );
        }
        let mut entries: Vec<u32> = Vec::new();
        let mut i: u32 = 0;
        while i < entry_count
            invariant
                p0 == *old(pos) as int,
                i <= entry_count,
                entry_count as int == be32(data@, p0 + 4),
                i > 0 ==> *pos <= data@.len(),
                *pos == p0 + 8 + 4 * i,
                p0 + 8 <= data@.len(),
                entries@.len() == i,
                forall|j: int|
                    0 <= j < i ==> #[trigger] entries@[j] as int == be32(data@, p0 + 8 + 4 * j),
            decreases entry_count - i,
        {
            let v = match read_u32(data, pos) {
                Ok(v) => v,
                Err(e) => {
                    return Err(e);
                },
            };
            entries.push(v);
            i = i + 1;
        }
        match seek_end(pos, start, size) {
            Ok(()) => {},
            Err(e) => {
                return Err(e);
            },
        }
        Ok(StcoBox { version, flags, entries })
    }
}

} // verus!
