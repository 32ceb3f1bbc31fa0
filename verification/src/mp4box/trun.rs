//! `trun` — the track-run box: one run of consecutive samples inside a
//! track fragment.  Flag bits select an optional data offset, an optional
//! first-sample flag override, and four optional per-sample columns
//! (duration, size, flags, composition offset), each either present for
//! every sample of the run or absent for all of them.

use crate::byteio::{be24, be32, read_i32, read_u32, sbe32};
use crate::error::Error;
use crate::mp4box::tfhd::opt_field_len;
use crate::mp4box::{box_start, read_box_header_ext, seek_end, BoxType, Mp4Box, ReadBox};
use vstd::prelude::*;

verus! {

#[derive(Debug, Clone, PartialEq, Eq)]
pub struct TrunBox {
    pub version: u8,
    pub flags: u32,
    pub sample_count: u32,
    pub data_offset: Option<i32>,
    pub first_sample_flags: Option<u32>,
    pub sample_durations: Vec<u32>,
    pub sample_sizes: Vec<u32>,
    pub sample_flags: Vec<u32>,
    pub sample_cts: Vec<u32>,
}

impl TrunBox {
    pub const FLAG_DATA_OFFSET: u32 = 0x01;

    pub const FLAG_FIRST_SAMPLE_FLAGS: u32 = 0x04;

    pub const FLAG_SAMPLE_DURATION: u32 = 0x100;

    pub const FLAG_SAMPLE_SIZE: u32 = 0x200;

    pub const FLAG_SAMPLE_FLAGS: u32 = 0x400;

    pub const FLAG_SAMPLE_CTS: u32 = 0x800;

    pub fn get_type(&self) -> (t: BoxType)
        ensures
            t == BoxType::TrunBox,
    {
        BoxType::TrunBox
    }

    pub fn get_size(&self) -> (s: u64)
        requires
            self.size_spec() <= u64::MAX,
        ensures
            s as int == self.size_spec(),
    {
        let mut sum: u64 = 8 + 4 + 4;
        if self.flags & Self::FLAG_DATA_OFFSET != 0 {
            sum = sum + 4;
        }
        if self.flags & Self::FLAG_FIRST_SAMPLE_FLAGS != 0 {
            sum = sum + 4;
        }
        if self.flags & Self::FLAG_SAMPLE_DURATION != 0 {
            sum = sum + 4 * (self.sample_count as u64);
        }
        if self.flags & Self::FLAG_SAMPLE_SIZE != 0 {
            sum = sum + 4 * (self.sample_count as u64);
        }
        if self.flags & Self::FLAG_SAMPLE_FLAGS != 0 {
            sum = sum + 4 * (self.sample_count as u64);
        }
        if self.flags & Self::FLAG_SAMPLE_CTS != 0 {
            sum = sum + 4 * (self.sample_count as u64);
        }
        sum
    }
}

impl Mp4Box for TrunBox {
    open spec fn size_spec(&self) -> int {
        8 + 4 + 4 + opt_field_len(self.flags & 0x01 != 0, 4) + opt_field_len(
            self.flags & 0x04 != 0,
            4,
        ) + opt_field_len(self.flags & 0x100 != 0, 4 * self.sample_count as int) + opt_field_len(
            self.flags & 0x200 != 0,
            4 * self.sample_count as int,
        ) + opt_field_len(self.flags & 0x400 != 0, 4 * self.sample_count as int) + opt_field_len(
            self.flags & 0x800 != 0,
            4 * self.sample_count as int,
        )
    }

    proof fn size_spec_bounds(&self) {
    }

    fn box_type(&self) -> (t: BoxType) {
        self.get_type()
    }

    fn box_size(&self) -> (s: u64) {
        self.get_size()
    }
}

/// The flag word of the `trun` whose body starts at `p`.
pub open spec fn trun_flags(s: Seq<u8>, p: int) -> u32 {
    be24(s, p + 1) as u32
}

/// The sample count of the `trun` whose body starts at `p`.
pub open spec fn trun_count(s: Seq<u8>, p: int) -> int {
    be32(s, p + 4)
}

/// Offset of the first per-sample row: past the count and the optional
/// data-offset and first-sample-flags words.
pub open spec fn trun_rows_off(s: Seq<u8>, p: int) -> int {
    p + 8 + opt_field_len(trun_flags(s, p) & 0x01 != 0, 4) + opt_field_len(
        trun_flags(s, p) & 0x04 != 0,
        4,
    )
}

/// Byte width of one per-sample row: 4 bytes per selected column.
pub open spec fn trun_row_len(s: Seq<u8>, p: int) -> int {
    opt_field_len(trun_flags(s, p) & 0x100 != 0, 4) + opt_field_len(
        trun_flags(s, p) & 0x200 != 0,
        4,
    ) + opt_field_len(trun_flags(s, p) & 0x400 != 0, 4) + opt_field_len(
        trun_flags(s, p) & 0x800 != 0,
        4,
    )
}

/// Offset of the duration column inside row `i` (the first column).
pub open spec fn trun_dur_off(s: Seq<u8>, p: int, i: int) -> int {
    trun_rows_off(s, p) + trun_row_len(s, p) * i
}

/// Offset of the size column inside row `i`.
pub open spec fn trun_size_off(s: Seq<u8>, p: int, i: int) -> int {
    trun_dur_off(s, p, i) + opt_field_len(trun_flags(s, p) & 0x100 != 0, 4)
}

/// Offset of the sample-flags column inside row `i`.
pub open spec fn trun_sf_off(s: Seq<u8>, p: int, i: int) -> int {
    trun_size_off(s, p, i) + opt_field_len(trun_flags(s, p) & 0x200 != 0, 4)
}

/// Offset of the composition-offset column inside row `i`.
pub open spec fn trun_cts_off(s: Seq<u8>, p: int, i: int) -> int {
    trun_sf_off(s, p, i) + opt_field_len(trun_flags(s, p) & 0x400 != 0, 4)
}

/// True when the run at body position `p` of a box of declared size `size`
/// can be fully decoded: the declared sample count must fit in the box and
/// all selected rows must lie within the data.
pub open spec fn trun_parse_ok(s: Seq<u8>, p: int, size: int) -> bool {
    &&& trun_rows_off(s, p) <= s.len()
    &&& p + 8 <= s.len()
    &&& trun_count(s, p) * trun_row_len(s, p) <= trun_max_bytes(s, p, size)
    &&& trun_rows_off(s, p) + trun_row_len(s, p) * trun_count(s, p) <= s.len()
    &&& p - 8 + size <= u64::MAX
}

/// The bytes the declared size leaves for the per-sample rows.
pub open spec fn trun_max_bytes(s: Seq<u8>, p: int, size: int) -> int {
    let fixed = 12 + 4 + opt_field_len(trun_flags(s, p) & 0x01 != 0, 4) + opt_field_len(
        trun_flags(s, p) & 0x04 != 0,
        4,
    );
    if size >= fixed {
        size - fixed
    } else {
        0
    }
}

impl ReadBox for TrunBox {
    /// Decodes the run header and the selected per-sample columns; fails
    /// when the declared sample count cannot fit in the box or the data
    /// ends early.
    fn read_box(data: &[u8], pos: &mut u64, size: u64) -> (r: Result<Self, Error>)
        ensures
            match r {
                Ok(b) => {
                    &&& trun_parse_ok(data@, *old(pos) as int, size as int)
                    &&& b.version == data@[*old(pos) as int]
                    &&& b.flags == trun_flags(data@, *old(pos) as int)
                    &&& b.sample_count as int == trun_count(data@, *old(pos) as int)
                    &&& (b.data_offset is Some <==> b.flags & 0x01 != 0)
                    &&& (b.data_offset matches Some(v) ==> v as int == sbe32(
                        data@,
                        *old(pos) + 8,
                    ))
                    &&& (b.first_sample_flags is Some <==> b.flags & 0x04 != 0)
                    &&& (b.first_sample_flags matches Some(v) ==> v as int == be32(
                        data@,
                        *old(pos) + 8 + opt_field_len(b.flags & 0x01 != 0, 4),
                    ))
                    &&& b.sample_durations@.len() == opt_count(
                        b.flags & 0x100 != 0,
                        b.sample_count,
                    )
                    &&& b.sample_sizes@.len() == opt_count(b.flags & 0x200 != 0, b.sample_count)
                    &&& b.sample_flags@.len() == opt_count(b.flags & 0x400 != 0, b.sample_count)
                    &&& b.sample_cts@.len() == opt_count(b.flags & 0x800 != 0, b.sample_count)
                    &&& forall|i: int|
                        0 <= i < b.sample_durations@.len()
                            ==> #[trigger] b.sample_durations@[i] as int == be32(
                            data@,
                            trun_dur_off(data@, *old(pos) as int, i),
                        )
                    &&& forall|i: int|
                        0 <= i < b.sample_sizes@.len() ==> #[trigger] b.sample_sizes@[i] as int
                            == be32(data@, trun_size_off(data@, *old(pos) as int, i))
                    &&& forall|i: int|
                        0 <= i < b.sample_flags@.len() ==> #[trigger] b.sample_flags@[i] as int
                            == be32(data@, trun_sf_off(data@, *old(pos) as int, i))
                    &&& forall|i: int|
                        0 <= i < b.sample_cts@.len() ==> #[trigger] b.sample_cts@[i] as int
                            == be32(data@, trun_cts_off(data@, *old(pos) as int, i))
                    &&& *final(pos) == *old(pos) - 8 + size
                },
                Err(e) => {
                    &&& !trun_parse_ok(data@, *old(pos) as int, size as int)
                    &&& (e is Io || e is MalformedContainer)
                    &&& (e is MalformedContainer <==> trun_rows_off(data@, *old(pos) as int)
                        <= data@.len() && (trun_count(data@, *old(pos) as int) * trun_row_len(
                        data@,
                        *old(pos) as int,
                    ) > trun_max_bytes(data@, *old(pos) as int, size as int) || (trun_count(
                        data@,
                        *old(pos) as int,
                    ) * trun_row_len(data@, *old(pos) as int) <= trun_max_bytes(
                        data@,
                        *old(pos) as int,
                        size as int,
                    ) && trun_rows_off(data@, *old(pos) as int) + trun_row_len(
                        data@,
                        *old(pos) as int,
                    ) * trun_count(data@, *old(pos) as int) <= data@.len() && *old(pos) - 8 + size
                        > u64::MAX)))
                },
            },
    {
        let ghost p0 = *pos as int;
        let start = box_start(*pos);
        let (version, flags) = match read_box_header_ext(data, pos) {
            Ok(vf) => vf,
            Err(e) => {
                return Err(e);
            },
        };
        let sample_count = match read_u32(data, pos) {
            Ok(v) => v,
            Err(e) => {
                return Err(e);
            },
        };
        let data_offset = if flags & Self::FLAG_DATA_OFFSET != 0 {
            match read_i32(data, pos) {
                Ok(v) => Some(v),
                Err(e) => {
                    return Err(e);
                },
            }
        } else {
            None
        };
        let first_sample_flags = if flags & Self::FLAG_FIRST_SAMPLE_FLAGS != 0 {
            match read_u32(data, pos) {
                Ok(v) => Some(v),
                Err(e) => {
                    return Err(e);
                },
            }
        } else {
            None
        };
        let row_len: u64 = {
            let mut w: u64 = 0;
            if flags & Self::FLAG_SAMPLE_DURATION != 0 {
                w = w + 4;
            }
            if flags & Self::FLAG_SAMPLE_SIZE != 0 {
                w = w + 4;
            }
            if flags & Self::FLAG_SAMPLE_FLAGS != 0 {
                w = w + 4;
            }
            if flags & Self::FLAG_SAMPLE_CTS != 0 {
                w = w + 4;
            }
            w
        };
        let fixed: u64 = {
            let mut f: u64 = 12 + 4;
            if flags & Self::FLAG_DATA_OFFSET != 0 {
                f = f + 4;
            }
            if flags & Self::FLAG_FIRST_SAMPLE_FLAGS != 0 {
                f = f + 4;
            }
            f
        };
        let max_bytes: u64 = if size >= fixed {
            size - fixed
        } else {
            0
        };
        proof {
            assert((sample_count as int) * (row_len as int) <= 0xffffffff * 16)
                by (nonlinear_arith)
                requires
                    sample_count as int <= 0xffffffff,
                    0 <= row_len as int <= 16,
            ;
        }
        if (sample_count as u64) * row_len > max_bytes {
            return Err(
                Error::MalformedContainer(
                    "trun sample_count indicates more values than could fit in the box",
                ),
            );
        }
        let mut sample_durations: Vec<u32> = Vec::new();
        let mut sample_sizes: Vec<u32> = Vec::new();
        let mut sample_flags: Vec<u32> = Vec::new();
        let mut sample_cts: Vec<u32> = Vec::new();
        let ghost rows0 = *pos as int;
        let mut i: u32 = 0;
        while i < sample_count
            invariant
                p0 == *old(pos) as int,
                i <= sample_count,
                sample_count as int == trun_count(data@, p0),
                flags == trun_flags(data@, p0),
                rows0 == trun_rows_off(data@, p0),
                row_len as int == trun_row_len(data@, p0),
                p0 + 8 <= data@.len(),
                rows0 <= data@.len(),
                i > 0 ==> *pos <= data@.len(),
                *pos == rows0 + row_len * i,
                sample_count * row_len <= trun_max_bytes(data@, p0, size as int),
                sample_durations@.len() == opt_count(flags & 0x100 != 0, i),
                sample_sizes@.len() == opt_count(flags & 0x200 != 0, i),
                sample_flags@.len() == opt_count(flags & 0x400 != 0, i),
                sample_cts@.len() == opt_count(flags & 0x800 != 0, i),
                forall|j: int|
                    0 <= j < sample_durations@.len() ==> #[trigger] sample_durations@[j] as int
                        == be32(data@, trun_dur_off(data@, p0, j)),
                forall|j: int|
                    0 <= j < sample_sizes@.len() ==> #[trigger] sample_sizes@[j] as int == be32(
                        data@,
                        trun_size_off(data@, p0, j),
                    ),
                forall|j: int|
                    0 <= j < sample_flags@.len() ==> #[trigger] sample_flags@[j] as int == be32(
                        data@,
                        trun_sf_off(data@, p0, j),
                    ),
                forall|j: int|
                    0 <= j < sample_cts@.len() ==> #[trigger] sample_cts@[j] as int == be32(
                        data@,
                        trun_cts_off(data@, p0, j),
                    ),
            decreases sample_count - i,
        {
            proof {
                assert(row_len * (i + 1) <= row_len * (sample_count as int)) by (nonlinear_arith)
                    requires
                        i + 1 <= sample_count as int,
                        row_len >= 0,
                ;
                assert(row_len * i >= 0) by (nonlinear_arith)
                    requires
                        row_len >= 0,
                        i >= 0,
                ;
            }
            if flags & Self::FLAG_SAMPLE_DURATION != 0 {
                let v = match read_u32(data, pos) {
                    Ok(v) => v,
                    Err(e) => {
                        proof {
                            assert(row_len * (i as int) + row_len == row_len * (i as int + 1))
                                by (nonlinear_arith);
                            lemma_trun_row_overflow(data@, p0, size as int, i as int);
                        }
                        return Err(e);
                    },
                };
                sample_durations.push(v);
            }
            if flags & Self::FLAG_SAMPLE_SIZE != 0 {
                let v = match read_u32(data, pos) {
                    Ok(v) => v,
                    Err(e) => {
                        proof {
                            assert(row_len * (i as int) + row_len == row_len * (i as int + 1))
                                by (nonlinear_arith);
                            lemma_trun_row_overflow(data@, p0, size as int, i as int);
                        }
                        return Err(e);
                    },
                };
                sample_sizes.push(v);
            }
            if flags & Self::FLAG_SAMPLE_FLAGS != 0 {
                let v = match read_u32(data, pos) {
                    Ok(v) => v,
                    Err(e) => {
                        proof {
                            assert(row_len * (i as int) + row_len == row_len * (i as int + 1))
                                by (nonlinear_arith);
                            lemma_trun_row_overflow(data@, p0, size as int, i as int);
                        }
                        return Err(e);
                    },
                };
                sample_flags.push(v);
            }
            if flags & Self::FLAG_SAMPLE_CTS != 0 {
                let v = match read_u32(data, pos) {
                    Ok(v) => v,
                    Err(e) => {
                        proof {
                            assert(row_len * (i as int) + row_len == row_len * (i as int + 1))
                                by (nonlinear_arith);
                            lemma_trun_row_overflow(data@, p0, size as int, i as int);
                        }
                        return Err(e);
                    },
                };
                sample_cts.push(v);
            }
            proof {
                assert(row_len * (i as int) + row_len == row_len * (i as int + 1))
                    by (nonlinear_arith);
            }
            i = i + 1;
        }
        match seek_end(pos, start, size) {
            Ok(()) => {},
            Err(e) => {
                return Err(e);
            },
        }
        Ok(
            TrunBox {
                version,
                flags,
                sample_count,
                data_offset,
                first_sample_flags,
                sample_durations,
                sample_sizes,
                sample_flags,
                sample_cts,
            },
        )
    }
}

/// The number of entries a per-sample column holds after `i` rows: `i` when
/// the column is selected, none otherwise.
pub open spec fn opt_count(present: bool, i: u32) -> int {
    if present {
        i as int
    } else {
        0
    }
}

/// When a read inside row `i` runs past the end of the data, the whole row
/// area cannot lie within the data either.
proof fn lemma_trun_row_overflow(s: Seq<u8>, p: int, size: int, i: int)
    requires
        0 <= i < trun_count(s, p),
        trun_row_len(s, p) >= 4,
    ensures
        trun_rows_off(s, p) + trun_row_len(s, p) * (i + 1) <= trun_rows_off(s, p) + trun_row_len(
            s,
            p,
        ) * trun_count(s, p),
{
    assert(trun_row_len(s, p) * (i + 1) <= trun_row_len(s, p) * trun_count(s, p))
        by (nonlinear_arith)
        requires
            i + 1 <= trun_count(s, p),
            trun_row_len(s, p) >= 0,
    ;
}

} // verus!
