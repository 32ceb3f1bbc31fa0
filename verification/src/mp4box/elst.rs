//! `elst` — the edit-list box: segment duration, media time and media rate
//! per edit.  Version 1 stores the two times in 64 bits, version 0 in 32.

use crate::byteio::{be16, be24, be32, be64, read_u16, read_u32, read_u64};
use crate::error::Error;
use crate::mp4box::{box_start, read_box_header_ext, seek_end, BoxType, Mp4Box, ReadBox};
use vstd::prelude::*;

verus! {

#[derive(Debug, Clone, Copy, PartialEq, Eq, Structural)]
pub struct ElstEntry {
    pub segment_duration: u64,
    pub media_time: u64,
    pub media_rate: u16,
    pub media_rate_fraction: u16,
}

#[derive(Debug, Clone, PartialEq, Eq)]
pub struct ElstBox {
    pub version: u8,
    pub flags: u32,
    pub entries: Vec<ElstEntry>,
}

impl ElstBox {
    pub fn get_type(&self) -> (t: BoxType)
        ensures
            t == BoxType::ElstBox,
    {
        BoxType::ElstBox
    }

    pub fn get_size(&self) -> (s: u64)
        requires
            self.size_spec() <= u64::MAX,
        ensures
            s as int == self.size_spec(),
    {
        if self.version == 1 {
            8 + 4 + 4 + 20 * (self.entries.len() as u64)
        } else {
            8 + 4 + 4 + 12 * (self.entries.len() as u64)
        }
    }
}

impl Mp4Box for ElstBox {
    open spec fn size_spec(&self) -> int {
        if self.version == 1 {
            8 + 4 + 4 + 20 * (self.entries@.len() as int)
        } else {
            8 + 4 + 4 + 12 * (self.entries@.len() as int)
        }
    }

    proof fn size_spec_bounds(&self) {
    }

    fn box_type(&self) -> (t: BoxType) {
        self.get_type()
    }

    fn box_size(&self) -> (s: u64) {
        self.get_size()
    }
}

/// Byte width of one edit entry under the version stored at `p`.
pub open spec fn elst_entry_len(s: Seq<u8>, p: int) -> int {
    if s[p] == 1 {
        20
    } else {
        12
    }
}

/// How many entries fit in the declared size after the 16 fixed bytes.
pub open spec fn elst_max_entries(s: Seq<u8>, p: int, size: int) -> int {
    if size >= 16 {
        (size - 16) / elst_entry_len(s, p)
    } else {
        0
    }
}

/// The segment duration of entry `i`.
pub open spec fn elst_sd(s: Seq<u8>, p: int, i: int) -> int {
    if s[p] == 1 {
        be64(s, p + 8 + 20 * i)
    } else {
        be32(s, p + 8 + 12 * i)
    }
}

/// The media time of entry `i`.
pub open spec fn elst_mt(s: Seq<u8>, p: int, i: int) -> int {
    if s[p] == 1 {
        be64(s, p + 8 + 20 * i + 8)
    } else {
        be32(s, p + 8 + 12 * i + 4)
    }
}

/// The media rate of entry `i`.
pub open spec fn elst_rate(s: Seq<u8>, p: int, i: int) -> int {
    if s[p] == 1 {
        be16(s, p + 8 + 20 * i + 16)
    } else {
        be16(s, p + 8 + 12 * i + 8)
    }
}

/// The media rate fraction of entry `i`.
pub open spec fn elst_rate_frac(s: Seq<u8>, p: int, i: int) -> int {
    if s[p] == 1 {
        be16(s, p + 8 + 20 * i + 18)
    } else {
        be16(s, p + 8 + 12 * i + 10)
    }
}

/// True when the edit list at body position `p` of a box of declared size
/// `size` can be fully decoded.
pub open spec fn elst_parse_ok(s: Seq<u8>, p: int, size: int) -> bool {
    &&& p + 8 <= s.len()
    &&& be32(s, p + 4) <= elst_max_entries(s, p, size)
    &&& p + 8 + elst_entry_len(s, p) * be32(s, p + 4) <= s.len()
    &&& p - 8 + size <= u64::MAX
}

impl ReadBox for ElstBox {
    fn read_box(data: &[u8], pos: &mut u64, size: u64) -> (r: Result<Self, Error>)
        ensures
            match r {
                Ok(b) => {
                    &&& elst_parse_ok(data@, *old(pos) as int, size as int)
                    &&& b.version == data@[*old(pos) as int]
                    &&& b.flags as int == be24(data@, *old(pos) + 1)
                    &&& b.entries@.len() == be32(data@, *old(pos) + 4)
                    &&& forall|i: int|
                        0 <= i < b.entries@.len() ==> {
                            &&& #[trigger] b.entries@[i].segment_duration as int == elst_sd(
                                data@,
                                *old(pos) as int,
                                i,
                            )
                            &&& b.entries@[i].media_time as int == elst_mt(
                                data@,
                                *old(pos) as int,
                                i,
                            )
                            &&& b.entries@[i].media_rate as int == elst_rate(
                                data@,
                                *old(pos) as int,
                                i,
                            )
                            &&& b.entries@[i].media_rate_fraction as int == elst_rate_frac(
                                data@,
                                *old(pos) as int,
                                i,
                            )
                        }
                    &&& *final(pos) == *old(pos) - 8 + size
                },
                Err(e) => {
                    &&& !elst_parse_ok(data@, *old(pos) as int, size as int)
                    &&& (e is Io || e is MalformedContainer)
                },
            },
    {
        let ghost p0 = *pos as int;
        let start = box_start(*pos);
        let (version, flags) = match read_box_header_ext(data, pos) {
            Ok(vf) => vf,
            Err(e) => {
                return Err(e);
            },
        };
        let entry_count = match read_u32(data, pos) {
            Ok(v) => v,
            Err(e) => {
                return Err(e);
            },
        };
        let entry_len: u64 = if version == 1 {
            20
        } else {
            12
        };
        let max_entries: u64 = if size >= 16 {
            (size - 16) / entry_len
        } else {
            0
        };
        if entry_count as u64 > max_entries {
            return Err(
                Error::MalformedContainer(
                    "elst entry_count indicates more entries than could fit in the box",
                ),
            );
        }
        let mut entries: Vec<ElstEntry> = Vec::new();
        let mut i: u32 = 0;
        while i < entry_count
            invariant
                p0 == *old(pos) as int,
                i <= entry_count,
                entry_count as int == be32(data@, p0 + 4),
                entry_count <= elst_max_entries(data@, p0, size as int),
                entry_len as int == elst_entry_len(data@, p0),
                version == data@[p0],
                i > 0 ==> *pos <= data@.len(),
                *pos == p0 + 8 + entry_len * i,
                p0 + 8 <= data@.len(),
                entries@.len() == i,
                forall|j: int|
                    0 <= j < i ==> {
                        &&& #[trigger] entries@[j].segment_duration as int == elst_sd(data@, p0, j)
                        &&& entries@[j].media_time as int == elst_mt(data@, p0, j)
                        &&& entries@[j].media_rate as int == elst_rate(data@, p0, j)
                        &&& entries@[j].media_rate_fraction as int == elst_rate_frac(data@, p0, j)
                    },
            decreases entry_count - i,
        {
            proof {
                assert(entry_len * (i as int) + entry_len == entry_len * (i as int + 1))
                    by (nonlinear_arith);
                assert(entry_len * (i as int + 1) <= entry_len * (entry_count as int))
                    by (nonlinear_arith)
                    requires
                        i as int + 1 <= entry_count as int,
                        entry_len >= 0,
                ;
                assert(entry_len * (i as int) >= 0) by (nonlinear_arith)
                    requires
                        entry_len >= 0,
                        i >= 0,
                ;
            }
            let (segment_duration, media_time) = if version == 1 {
                let sd = match read_u64(data, pos) {
                    Ok(v) => v,
                    Err(e) => {
                        return Err(e);
                    },
                };
                let mt = match read_u64(data, pos) {
                    Ok(v) => v,
                    Err(e) => {
                        return Err(e);
                    },
                };
                (sd, mt)
            } else {
                let sd = match read_u32(data, pos) {
                    Ok(v) => v as u64,
                    Err(e) => {
                        return Err(e);
                    },
                };
                let mt = match read_u32(data, pos) {
                    Ok(v) => v as u64,
                    Err(e) => {
                        return Err(e);
                    },
                };
                (sd, mt)
            };
            let media_rate = match read_u16(data, pos) {
                Ok(v) => v,
                Err(e) => {
                    return Err(e);
                },
            };
            let media_rate_fraction = match read_u16(data, pos) {
                Ok(v) => v,
                Err(e) => {
                    return Err(e);
                },
            };
            entries.push(ElstEntry { segment_duration, media_time, media_rate, media_rate_fraction });
            i = i + 1;
        }
        match seek_end(pos, start, size) {
            Ok(()) => {},
            Err(e) => {
                return Err(e);
            },
        }
        Ok(ElstBox { version, flags, entries })
    }
}

} // verus!
