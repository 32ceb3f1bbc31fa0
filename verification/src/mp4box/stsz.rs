//! `stsz` — the sample-size box: either one constant size for every sample
//! or an explicit per-sample list whose length is the total sample count.

use crate::byteio::{be24, be32, read_u32};
use crate::error::Error;
use crate::mp4box::{box_start, read_box_header_ext, seek_end, BoxType, Mp4Box, ReadBox};
use vstd::prelude::*;

verus! {

#[derive(Debug, Clone, PartialEq, Eq)]
pub struct StszBox {
    pub version: u8,
    pub flags: u32,
    pub sample_size: u32,
    pub sample_count: u32,
    pub sample_sizes: Vec<u32>,
}

/// The total number of samples the table describes: the explicit list's
/// length, or the declared count when one constant size covers all samples.
pub open spec fn stsz_total(b: &StszBox) -> int {
    if b.sample_size == 0 {
        b.sample_sizes@.len() as int
    } else {
        b.sample_count as int
    }
}

/// The size of sample `i` under the table.
pub open spec fn stsz_size_of(b: &StszBox, i: int) -> int {
    if b.sample_size == 0 {
        b.sample_sizes@[i] as int
    } else {
        b.sample_size as int
    }
}

impl StszBox {
    pub fn get_type(&self) -> (t: BoxType)
        ensures
            t == BoxType::StszBox,
    {
        BoxType::StszBox
    }

    pub fn get_size(&self) -> (s: u64)
        requires
            self.size_spec() <= u64::MAX,
        ensures
            s as int == self.size_spec(),
    {
        8 + 4 + 8 + 4 * (self.sample_sizes.len() as u64)
    }

    /// The total number of samples the table describes.
    pub fn total_count(&self) -> (n: u64)
        ensures
            n as int == stsz_total(self),
    {
        if self.sample_size == 0 {
            self.sample_sizes.len() as u64
        } else {
            self.sample_count as u64
        }
    }

    /// The size of sample `i` under the table.
    pub fn size_of_sample(&self, i: u64) -> (n: u32)
        requires
            i < stsz_total(self),
        ensures
            n as int == stsz_size_of(self, i as int),
    {
        if self.sample_size == 0 {
            let n = self.sample_sizes.len();
            proof {
                assert(i < n);
            }
            self.sample_sizes[i as usize]
        } else {
            self.sample_size
        }
    }
}

impl Mp4Box for StszBox {
    open spec fn size_spec(&self) -> int {
        8 + 4 + 8 + 4 * (self.sample_sizes@.len() as int)
    }

    proof fn size_spec_bounds(&self) {
    }

    fn box_type(&self) -> (t: BoxType) {
        self.get_type()
    }

    fn box_size(&self) -> (s: u64) {
        self.get_size()
    }
}

/// How many 4-byte size entries fit in the declared size after the 20 fixed
/// header bytes.
pub open spec fn stsz_max_entries(size: int) -> int {
    if size >= 20 {
        (size - 20) / 4
    } else {
        0
    }
}

/// True when the table at body position `p` of a box of declared size
/// `size` can be fully decoded.
pub open spec fn stsz_parse_ok(s: Seq<u8>, p: int, size: int) -> bool {
    &&& p + 12 <= s.len()
    &&& (be32(s, p + 4) == 0 ==> {
        &&& be32(s, p + 8) <= stsz_max_entries(size)
        &&& p + 12 + 4 * be32(s, p + 8) <= s.len()
    })
    &&& p - 8 + size <= u64::MAX
}

impl ReadBox for StszBox {
    /// Decodes the constant sample size and, when it is zero, the explicit
    /// per-sample size list; fails when the declared sample count cannot fit
    /// in the box or the data ends early.
    fn read_box(data: &[u8], pos: &mut u64, size: u64) -> (r: Result<Self, Error>)
        ensures
            match r {
                Ok(b) => {
                    &&& stsz_parse_ok(data@, *old(pos) as int, size as int)
                    &&& b.version == data@[*old(pos) as int]
                    &&& b.flags as int == be24(data@, *old(pos) + 1)
                    &&& b.sample_size as int == be32(data@, *old(pos) + 4)
                    &&& b.sample_count as int == be32(data@, *old(pos) + 8)
                    &&& (b.sample_size == 0 ==> b.sample_sizes@.len() == be32(data@, *old(pos) + 8)
                        && forall|i: int|
                        0 <= i < b.sample_sizes@.len() ==> #[trigger] b.sample_sizes@[i] as int
                            == be32(data@, *old(pos) + 12 + 4 * i))
                    &&& (b.sample_size != 0 ==> b.sample_sizes@.len() == 0)
                    &&& *final(pos) == *old(pos) - 8 + size
                },
                Err(e) => {
                    &&& !stsz_parse_ok(data@, *old(pos) as int, size as int)
                    &&& (e is Io || e is MalformedContainer)
                    &&& (e is MalformedContainer <==> *old(pos) + 12 <= data@.len() && ((be32(
                        data@,
                        *old(pos) + 4,
                    ) == 0 && be32(data@, *old(pos) + 8) > stsz_max_entries(size as int)) || ((
                    be32(data@, *old(pos) + 4) == 0 ==> be32(data@, *old(pos) + 8)
                        <= stsz_max_entries(size as int) && *old(pos) + 12 + 4 * be32(
                        data@,
                        *old(pos) + 8,
                    ) <= data@.len()) && *old(pos) - 8 + size > u64::MAX)))
                },
            },
    {
        let ghost p0 = *pos as int;
        let start = box_start(*pos);
        let (version, flags) = match read_box_header_ext(data, pos) {
            Ok(vf) => vf,
            Err(e) => {
                return Err(e);
            },
        };
        let sample_size = match read_u32(data, pos) {
            Ok(v) => v,
            Err(e) => {
                return Err(e);
            },
        };
        let sample_count = match read_u32(data, pos) {
            Ok(v) => v,
            Err(e) => {
                return Err(e);
            },
        };
        let mut sample_sizes: Vec<u32> = Vec::new();
        if sample_size == 0 {
            let max_entries: u64 = if size >= 20 {
                (size - 20) / 4
            } else {
                0
            };
            if sample_count as u64 > max_entries {
                return Err(
                    Error::MalformedContainer(
                        "stsz sample_count indicates more values than could fit in the box",
                    ),
                );
            }
            let mut i: u32 = 0;
            while i < sample_count
                invariant
                    p0 == *old(pos) as int,
                    i <= sample_count,
                    be32(data@, p0 + 4) == 0,
                    sample_count as int == be32(data@, p0 + 8),
                    sample_count as int <= stsz_max_entries(size as int),
                    i > 0 ==> *pos <= data@.len(),
                    *pos == p0 + 12 + 4 * i,
                    p0 + 12 <= data@.len(),
                    sample_sizes@.len() == i,
                    forall|j: int|
                        0 <= j < i ==> #[trigger] sample_sizes@[j] as int == be32(
                            data@,
                            p0 + 12 + 4 * j,
                        ),
                decreases sample_count - i,
            {
                let v = match read_u32(data, pos) {
                    Ok(v) => v,
                    Err(e) => {
                        proof {
                            assert(4 * (i as int) + 4 <= 4 * (sample_count as int));
                            assert(p0 + 12 + 4 * (sample_count as int) > data@.len());
                        }
                        return Err(e);
                    },
                };
                sample_sizes.push(v);
                i = i + 1;
            }
        }
        match seek_end(pos, start, size) {
            Ok(()) => {},
            Err(e) => {
                return Err(e);
            },
        }
        Ok(StszBox { version, flags, sample_size, sample_count, sample_sizes })
    }
}

} // verus!
