//! `traf` — the track-fragment container box: one mandatory header, an
//! optional base decode time, and the ordered list of track runs.

use crate::error::Error;
use crate::mp4box::tfdt::TfdtBox;
use crate::mp4box::tfhd::TfhdBox;
use crate::mp4box::trun::TrunBox;
use crate::mp4box::{
    box_start, child_end, lemma_sum_box_sizes_nonneg, lemma_sum_box_sizes_take_le,
    lemma_sum_box_sizes_take_step, seek_end, sum_box_sizes, BoxHeader, BoxType, Mp4Box, ReadBox,
};
use vstd::prelude::*;

verus! {

#[derive(Debug, Clone, PartialEq, Eq)]
pub struct TrafBox {
    pub tfhd: TfhdBox,
    pub tfdt: Option<TfdtBox>,
    pub truns: Vec<TrunBox>,
}

impl TrafBox {
    pub fn get_type(&self) -> (t: BoxType)
        ensures
            t == BoxType::TrafBox,
    {
        BoxType::TrafBox
    }

    pub fn get_size(&self) -> (s: u64)
        requires
            self.size_spec() <= u64::MAX,
        ensures
            s as int == self.size_spec(),
    {
        let mut sum: u64 = 8;
        sum = sum + self.tfhd.get_size();
        proof {
            match self.tfdt {
                Some(t) => t.size_spec_bounds(),
                None => {},
            }
            lemma_sum_box_sizes_nonneg(self.truns@);
        }
        match &self.tfdt {
            Some(tfdt) => {
                sum = sum + tfdt.get_size();
            },
            None => {},
        }
        let mut i: usize = 0;
        let n = self.truns.len();
        while i < n
            invariant
                i <= n,
                n == self.truns@.len(),
                self.size_spec() <= u64::MAX,
                sum as int == 8 + self.tfhd.size_spec() + (match self.tfdt {
                    Some(t) => t.size_spec(),
                    None => 0int,
                }) + sum_box_sizes(self.truns@.take(i as int)),
                self.size_spec() == 8 + self.tfhd.size_spec() + (match self.tfdt {
                    Some(t) => t.size_spec(),
                    None => 0int,
                }) + sum_box_sizes(self.truns@),
                8 + self.tfhd.size_spec() + (match self.tfdt {
                    Some(t) => t.size_spec(),
                    None => 0int,
                }) >= 0,
            decreases n - i,
        {
            proof {
                lemma_sum_box_sizes_take_step(self.truns@, i as int);
                lemma_sum_box_sizes_take_le(self.truns@, i as int + 1);
                self.truns@[i as int].size_spec_bounds();
            }
            sum = sum + self.truns[i].get_size();
            i = i + 1;
        }
        proof {
            assert(self.truns@.take(n as int) =~= self.truns@);
        }
        sum
    }
}

impl Mp4Box for TrafBox {
    open spec fn size_spec(&self) -> int {
        8 + self.tfhd.size_spec() + (match self.tfdt {
            Some(t) => t.size_spec(),
            None => 0int,
        }) + sum_box_sizes(self.truns@)
    }

    proof fn size_spec_bounds(&self) {
        self.tfhd.size_spec_bounds();
        match self.tfdt {
            Some(t) => t.size_spec_bounds(),
            None => {},
        }
        lemma_sum_box_sizes_nonneg(self.truns@);
    }

    fn box_type(&self) -> (t: BoxType) {
        self.get_type()
    }

    fn box_size(&self) -> (s: u64) {
        self.get_size()
    }
}

impl ReadBox for TrafBox {
    /// Walks the children: decodes `tfhd`, `tfdt` and every `trun`, skips
    /// unknown boxes, and fails when the mandatory `tfhd` is absent or a
    /// child does not fit in the remaining space.
    fn read_box(data: &[u8], pos: &mut u64, size: u64) -> (r: Result<Self, Error>)
        ensures
            r is Ok ==> *final(pos) == *old(pos) - 8 + size,
            r matches Err(e) ==> ((e matches Error::MissingRequiredBox(bt) && bt
                == BoxType::TfhdBox) ==> !crate::mp4box::children_have(
                data@,
                *old(pos) as int,
                *old(pos) - 8 + size,
                BoxType::TfhdBox,
            )),
            r matches Err(e) ==> (e matches Error::MissingRequiredBox(bt) ==> bt
                == BoxType::TfhdBox),
            r matches Ok(b) ==> crate::mp4box::children_have(
                data@,
                *old(pos) as int,
                *old(pos) - 8 + size,
                BoxType::TfhdBox,
            ),
    {
        let ghost p0 = *pos as int;
        let start = box_start(*pos);
        if size > u64::MAX - start {
            return Err(Error::MalformedContainer("box end does not fit in 64 bits"));
        }
        let end: u64 = start + size;
        let mut tfhd: Option<TfhdBox> = None;
        let mut tfdt: Option<TfdtBox> = None;
        let mut truns: Vec<TrunBox> = Vec::new();
        while *pos < end
            invariant
                *pos >= 8,
                end <= u64::MAX,
                (tfhd is Some || crate::mp4box::children_have(
                    data@,
                    *pos as int,
                    end as int,
                    BoxType::TfhdBox,
                )) == crate::mp4box::children_have(data@, p0, end as int, BoxType::TfhdBox),
            decreases end - *pos,
        {
            let ghost q = *pos as int;
            let header = match BoxHeader::read(data, pos) {
                Ok(h) => h,
                Err(e) => {
                    return Err(e);
                },
            };
            let cend = match child_end(*pos, header.size, end) {
                Ok(v) => v,
                Err(e) => {
                    return Err(e);
                },
            };
            proof {
                assert(crate::mp4box::children_have(data@, q, end as int, BoxType::TfhdBox) == (
                crate::mp4box::header_name(data@, q) == BoxType::TfhdBox
                    || crate::mp4box::children_have(
                    data@,
                    cend as int,
                    end as int,
                    BoxType::TfhdBox,
                )));
            }
            match header.name {
                BoxType::TfhdBox => {
                    let b = match TfhdBox::read_box(data, pos, header.size) {
                        Ok(b) => b,
                        Err(e) => {
                            return Err(e);
                        },
                    };
                    tfhd = Some(b);
                },
                BoxType::TfdtBox => {
                    let b = match TfdtBox::read_box(data, pos, header.size) {
                        Ok(b) => b,
                        Err(e) => {
                            return Err(e);
                        },
                    };
                    tfdt = Some(b);
                },
                BoxType::TrunBox => {
                    let b = match TrunBox::read_box(data, pos, header.size) {
                        Ok(b) => b,
                        Err(e) => {
                            return Err(e);
                        },
                    };
                    truns.push(b);
                },
                _ => {
                    *pos = cend;
                },
            }
        }
        let tfhd = match tfhd {
            Some(b) => b,
            None => {
                return Err(Error::MissingRequiredBox(BoxType::TfhdBox));
            },
        };
        match seek_end(pos, start, size) {
            Ok(()) => {},
            Err(e) => {
                return Err(e);
            },
        }
        Ok(TrafBox { tfhd, tfdt, truns })
    }
}

} // verus!
