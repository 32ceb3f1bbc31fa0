//! `moof` — the movie-fragment container box: a sequence header and the
//! track fragments that extend the per-track timelines.  The byte offset of
//! the box itself in the file is kept, because fragment runs may resolve
//! their sample offsets relative to it.

use crate::error::Error;
use crate::mp4box::mfhd::MfhdBox;
use crate::mp4box::traf::TrafBox;
use crate::mp4box::{
    box_start, child_end, lemma_sum_box_sizes_nonneg, lemma_sum_box_sizes_take_le,
    lemma_sum_box_sizes_take_step, seek_end, sum_box_sizes, BoxHeader, BoxType, Mp4Box, ReadBox,
};
use vstd::prelude::*;

verus! {

#[derive(Debug, Clone, PartialEq, Eq)]
pub struct MoofBox {
    /// Absolute file offset of the first byte of this box.
    pub start: u64,
    pub mfhd: MfhdBox,
    pub trafs: Vec<TrafBox>,
}

impl MoofBox {
    pub fn get_type(&self) -> (t: BoxType)
        ensures
            t == BoxType::MoofBox,
    {
        BoxType::MoofBox
    }

    pub fn get_size(&self) -> (s: u64)
        requires
            self.size_spec() <= u64::MAX,
        ensures
            s as int == self.size_spec(),
    {
        let mut sum: u64 = 8 + self.mfhd.get_size();
        proof {
            lemma_sum_box_sizes_nonneg(self.trafs@);
        }
        let mut i: usize = 0;
        let n = self.trafs.len();
        while i < n
            invariant
                i <= n,
                n == self.trafs@.len(),
                self.size_spec() <= u64::MAX,
                sum as int == 8 + self.mfhd.size_spec() + sum_box_sizes(self.trafs@.take(i as int)),
                self.size_spec() == 8 + self.mfhd.size_spec() + sum_box_sizes(self.trafs@),
            decreases n - i,
        {
            proof {
                lemma_sum_box_sizes_take_step(self.trafs@, i as int);
                lemma_sum_box_sizes_take_le(self.trafs@, i as int + 1);
                self.trafs@[i as int].size_spec_bounds();
            }
            sum = sum + self.trafs[i].get_size();
            i = i + 1;
        }
        proof {
            assert(self.trafs@.take(n as int) =~= self.trafs@);
        }
        sum
    }
}

impl Mp4Box for MoofBox {
    open spec fn size_spec(&self) -> int {
        8 + self.mfhd.size_spec() + sum_box_sizes(self.trafs@)
    }

    proof fn size_spec_bounds(&self) {
        lemma_sum_box_sizes_nonneg(self.trafs@);
    }

    fn box_type(&self) -> (t: BoxType) {
        self.get_type()
    }

    fn box_size(&self) -> (s: u64) {
        self.get_size()
    }
}

impl ReadBox for MoofBox {
    /// Walks the children: decodes `mfhd` and every `traf`, skips unknown
    /// boxes, and fails when the mandatory `mfhd` is absent.  The caller
    /// fills in `start` afterwards from the position the header was read at.
    #[verifier::rlimit(100)]
    fn read_box(data: &[u8], pos: &mut u64, size: u64) -> (r: Result<Self, Error>)
        ensures
            match r {
                Ok(b) => *final(pos) == *old(pos) - 8 + size && b.start == *old(pos) - 8,
                Err(_) => true,
            },
            r matches Err(e) ==> ((e matches Error::MissingRequiredBox(bt) && bt
                == BoxType::MfhdBox) ==> !crate::mp4box::children_have(
                data@,
                *old(pos) as int,
                *old(pos) - 8 + size,
                BoxType::MfhdBox,
            )),
            r is Ok ==> crate::mp4box::children_have(
                data@,
                *old(pos) as int,
                *old(pos) - 8 + size,
                BoxType::MfhdBox,
            ),
            r matches Ok(b) ==> (b.trafs@.len() > 0 <==> crate::mp4box::children_have(
                data@,
                *old(pos) as int,
                *old(pos) - 8 + size,
                BoxType::TrafBox,
            )),
    {
        let ghost p0 = *pos as int;
        let start = box_start(*pos);
        if size > u64::MAX - start {
            return Err(Error::MalformedContainer("box end does not fit in 64 bits"));
        }
        let end: u64 = start + size;
        let mut mfhd: Option<MfhdBox> = None;
        let mut trafs: Vec<TrafBox> = Vec::new();
        while *pos < end
            invariant
                *pos >= 8,
                end <= u64::MAX,
                (mfhd is Some || crate::mp4box::children_have(
                    data@,
                    *pos as int,
                    end as int,
                    BoxType::MfhdBox,
                )) == crate::mp4box::children_have(data@, p0, end as int, BoxType::MfhdBox),
                (trafs@.len() > 0 || crate::mp4box::children_have(
                    data@,
                    *pos as int,
                    end as int,
                    BoxType::TrafBox,
                )) == crate::mp4box::children_have(data@, p0, end as int, BoxType::TrafBox),
            decreases end - *pos,
        {
            let ghost q = *pos as int;
            let header = match BoxHeader::read(data, pos) {
                Ok(h) => h,
                Err(e) => {
                    return Err(e);
                },
            };
            let cend = match child_end(*pos, header.size, end) {
                Ok(v) => v,
                Err(e) => {
                    return Err(e);
                },
            };
            proof {
                assert(crate::mp4box::children_have(data@, q, end as int, BoxType::MfhdBox) == (
                crate::mp4box::header_name(data@, q) == BoxType::MfhdBox
                    || crate::mp4box::children_have(
                    data@,
                    cend as int,
                    end as int,
                    BoxType::MfhdBox,
                )));
                assert(crate::mp4box::children_have(data@, q, end as int, BoxType::TrafBox) == (
                crate::mp4box::header_name(data@, q) == BoxType::TrafBox
                    || crate::mp4box::children_have(
                    data@,
                    cend as int,
                    end as int,
                    BoxType::TrafBox,
                )));
            }
            match header.name {
                BoxType::MfhdBox => {
                    let b = match MfhdBox::read_box(data, pos, header.size) {
                        Ok(b) => b,
                        Err(e) => {
                            return Err(e);
                        },
                    };
                    mfhd = Some(b);
                },
                BoxType::TrafBox => {
                    let b = match TrafBox::read_box(data, pos, header.size) {
                        Ok(b) => b,
                        Err(e) => {
                            return Err(e);
                        },
                    };
                    trafs.push(b);
                },
                _ => {
                    *pos = cend;
                },
            }
        }
        let mfhd = match mfhd {
            Some(b) => b,
            None => {
                return Err(Error::MissingRequiredBox(BoxType::MfhdBox));
            },
        };
        match seek_end(pos, start, size) {
            Ok(()) => {},
            Err(e) => {
                return Err(e);
            },
        }
        Ok(MoofBox { start, mfhd, trafs })
    }
}

} // verus!
