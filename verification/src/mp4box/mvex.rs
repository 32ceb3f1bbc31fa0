//! `mvex` — the movie-extends container box: the optional overall duration
//! and one track-extends default record per track of a fragmented movie.

use crate::error::Error;
use crate::mp4box::mehd::MehdBox;
use crate::mp4box::trex::TrexBox;
use crate::mp4box::{
    box_start, child_end, lemma_sum_box_sizes_nonneg, lemma_sum_box_sizes_take_le,
    lemma_sum_box_sizes_take_step, seek_end, sum_box_sizes, BoxHeader, BoxType, Mp4Box, ReadBox,
};
use vstd::prelude::*;

verus! {

#[derive(Debug, Clone, PartialEq, Eq)]
pub struct MvexBox {
    pub mehd: Option<MehdBox>,
    pub trexs: Vec<TrexBox>,
}

impl MvexBox {
    pub fn get_type(&self) -> (t: BoxType)
        ensures
            t == BoxType::MvexBox,
    {
        BoxType::MvexBox
    }

    pub fn get_size(&self) -> (s: u64)
        requires
            self.size_spec() <= u64::MAX,
        ensures
            s as int == self.size_spec(),
    {
        let mut sum: u64 = 8;
        proof {
            lemma_sum_box_sizes_nonneg(self.trexs@);
        }
        match &self.mehd {
            Some(mehd) => {
                sum = sum + mehd.get_size();
            },
            None => {},
        }
        let mut i: usize = 0;
        let n = self.trexs.len();
        while i < n
            invariant
                i <= n,
                n == self.trexs@.len(),
                self.size_spec() <= u64::MAX,
                sum as int == 8 + (match self.mehd {
                    Some(m) => m.size_spec(),
                    None => 0int,
                }) + sum_box_sizes(self.trexs@.take(i as int)),
                self.size_spec() == 8 + (match self.mehd {
                    Some(m) => m.size_spec(),
                    None => 0int,
                }) + sum_box_sizes(self.trexs@),
                8 + (match self.mehd {
                    Some(m) => m.size_spec(),
                    None => 0int,
                }) >= 0,
            decreases n - i,
        {
            proof {
                lemma_sum_box_sizes_take_step(self.trexs@, i as int);
                lemma_sum_box_sizes_take_le(self.trexs@, i as int + 1);
                self.trexs@[i as int].size_spec_bounds();
            }
            sum = sum + self.trexs[i].get_size();
            i = i + 1;
        }
        proof {
            assert(self.trexs@.take(n as int) =~= self.trexs@);
        }
        sum
    }
}

impl Mp4Box for MvexBox {
    open spec fn size_spec(&self) -> int {
        8 + (match self.mehd {
            Some(m) => m.size_spec(),
            None => 0int,
        }) + sum_box_sizes(self.trexs@)
    }

    proof fn size_spec_bounds(&self) {
        match self.mehd {
            Some(m) => m.size_spec_bounds(),
            None => {},
        }
        lemma_sum_box_sizes_nonneg(self.trexs@);
    }

    fn box_type(&self) -> (t: BoxType) {
        self.get_type()
    }

    fn box_size(&self) -> (s: u64) {
        self.get_size()
    }
}

impl ReadBox for MvexBox {
    /// Walks the children: decodes `mehd` and every `trex`, skips unknown
    /// boxes.
    fn read_box(data: &[u8], pos: &mut u64, size: u64) -> (r: Result<Self, Error>)
        ensures
            r is Ok ==> *final(pos) == *old(pos) - 8 + size,
            r matches Ok(b) ==> (b.mehd is Some <==> crate::mp4box::children_have(
                data@,
                *old(pos) as int,
                *old(pos) - 8 + size,
                BoxType::MehdBox,
            )),
            r matches Ok(b) ==> (b.trexs@.len() > 0 <==> crate::mp4box::children_have(
                data@,
                *old(pos) as int,
                *old(pos) - 8 + size,
                BoxType::TrexBox,
            )),
    {
        let ghost p0 = *pos as int;
        let start = box_start(*pos);
        if size > u64::MAX - start {
            return Err(Error::MalformedContainer("box end does not fit in 64 bits"));
        }
        let end: u64 = start + size;
        let mut mehd: Option<MehdBox> = None;
        let mut trexs: Vec<TrexBox> = Vec::new();
        while *pos < end
            invariant
                *pos >= 8,
                end <= u64::MAX,
                (mehd is Some || crate::mp4box::children_have(
                    data@,
                    *pos as int,
                    end as int,
                    BoxType::MehdBox,
                )) == crate::mp4box::children_have(data@, p0, end as int, BoxType::MehdBox),
                (trexs@.len() > 0 || crate::mp4box::children_have(
                    data@,
                    *pos as int,
                    end as int,
                    BoxType::TrexBox,
                )) == crate::mp4box::children_have(data@, p0, end as int, BoxType::TrexBox),
            decreases end - *pos,
        {
            let ghost q = *pos as int;
            let header = match BoxHeader::read(data, pos) {
                Ok(h) => h,
                Err(e) => {
                    return Err(e);
                },
            };
            let cend = match child_end(*pos, header.size, end) {
                Ok(v) => v,
                Err(e) => {
                    return Err(e);
                },
            };
            proof {
                assert(crate::mp4box::children_have(data@, q, end as int, BoxType::MehdBox) == (
                crate::mp4box::header_name(data@, q) == BoxType::MehdBox
                    || crate::mp4box::children_have(
                    data@,
                    cend as int,
                    end as int,
                    BoxType::MehdBox,
                )));
                assert(crate::mp4box::children_have(data@, q, end as int, BoxType::TrexBox) == (
                crate::mp4box::header_name(data@, q) == BoxType::TrexBox
                    || crate::mp4box::children_have(
                    data@,
                    cend as int,
                    end as int,
                    BoxType::TrexBox,
                )));
            }
            match header.name {
                BoxType::MehdBox => {
                    let b = match MehdBox::read_box(data, pos, header.size) {
                        Ok(b) => b,
                        Err(e) => {
                            return Err(e);
                        },
                    };
                    mehd = Some(b);
                },
                BoxType::TrexBox => {
                    let b = match TrexBox::read_box(data, pos, header.size) {
                        Ok(b) => b,
                        Err(e) => {
                            return Err(e);
                        },
                    };
                    trexs.push(b);
                },
                _ => {
                    *pos = cend;
                },
            }
        }
        match seek_end(pos, start, size) {
            Ok(()) => {},
            Err(e) => {
                return Err(e);
            },
        }
        Ok(MvexBox { mehd, trexs })
    }
}

} // verus!
