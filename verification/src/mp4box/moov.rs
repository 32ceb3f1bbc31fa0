//! `moov` — the movie container box: the movie header, every track, the
//! optional movie-extends defaults of a fragmented movie, and optional
//! metadata.

use crate::error::Error;
use crate::mp4box::meta::MetaBox;
use crate::mp4box::mvex::MvexBox;
use crate::mp4box::mvhd::MvhdBox;
use crate::mp4box::trak::TrakBox;
use crate::mp4box::udta::UdtaBox;
use crate::mp4box::{
    box_start, child_end, lemma_sum_box_sizes_nonneg, lemma_sum_box_sizes_take_le,
    lemma_sum_box_sizes_take_step, seek_end, sum_box_sizes, BoxHeader, BoxType, Mp4Box, ReadBox,
};
use vstd::prelude::*;

verus! {

#[derive(Debug, Clone, PartialEq, Eq)]
pub struct MoovBox {
    pub mvhd: MvhdBox,
    pub meta: Option<MetaBox>,
    pub mvex: Option<MvexBox>,
    pub traks: Vec<TrakBox>,
    pub udta: Option<UdtaBox>,
}

impl MoovBox {
    pub fn get_type(&self) -> (t: BoxType)
        ensures
            t == BoxType::MoovBox,
    {
        BoxType::MoovBox
    }

    pub fn get_size(&self) -> (s: u64)
        requires
            self.size_spec() <= u64::MAX,
        ensures
            s as int == self.size_spec(),
    {
        proof {
            lemma_sum_box_sizes_nonneg(self.traks@);
            match &self.meta {
                Some(b) => b.size_spec_bounds(),
                None => {},
            }
            match &self.mvex {
                Some(b) => b.size_spec_bounds(),
                None => {},
            }
            match &self.udta {
                Some(b) => b.size_spec_bounds(),
                None => {},
            }
        }
        let mut sum: u64 = 8 + self.mvhd.get_size();
        match &self.meta {
            Some(b) => {
                sum = sum + b.get_size();
            },
            None => {},
        }
        match &self.mvex {
            Some(b) => {
                sum = sum + b.get_size();
            },
            None => {},
        }
        match &self.udta {
            Some(b) => {
                sum = sum + b.get_size();
            },
            None => {},
        }
        let ghost fixed: int = 8 + self.mvhd.size_spec() + (match &self.meta {
            Some(b) => b.size_spec(),
            None => 0int,
        }) + (match &self.mvex {
            Some(b) => b.size_spec(),
            None => 0int,
        }) + (match &self.udta {
            Some(b) => b.size_spec(),
            None => 0int,
        });
        let mut i: usize = 0;
        let n = self.traks.len();
        while i < n
            invariant
                i <= n,
                n == self.traks@.len(),
                self.size_spec() <= u64::MAX,
                self.size_spec() == fixed + sum_box_sizes(self.traks@),
                fixed >= 0,
                sum as int == fixed + sum_box_sizes(self.traks@.take(i as int)),
            decreases n - i,
        {
            proof {
                lemma_sum_box_sizes_take_step(self.traks@, i as int);
                lemma_sum_box_sizes_take_le(self.traks@, i as int + 1);
                self.traks@[i as int].size_spec_bounds();
            }
            sum = sum + self.traks[i].get_size();
            i = i + 1;
        }
        proof {
            assert(self.traks@.take(n as int) =~= self.traks@);
        }
        sum
    }
}

impl Mp4Box for MoovBox {
    open spec fn size_spec(&self) -> int {
        8 + self.mvhd.size_spec() + (match self.meta {
            Some(b) => b.size_spec(),
            None => 0int,
        }) + (match self.mvex {
            Some(b) => b.size_spec(),
            None => 0int,
        }) + (match self.udta {
            Some(b) => b.size_spec(),
            None => 0int,
        }) + sum_box_sizes(self.traks@)
    }

    proof fn size_spec_bounds(&self) {
        lemma_sum_box_sizes_nonneg(self.traks@);
        match self.meta {
            Some(b) => b.size_spec_bounds(),
            None => {},
        }
        match self.mvex {
            Some(b) => b.size_spec_bounds(),
            None => {},
        }
        match self.udta {
            Some(b) => b.size_spec_bounds(),
            None => {},
        }
    }

    fn box_type(&self) -> (t: BoxType) {
        self.get_type()
    }

    fn box_size(&self) -> (s: u64) {
        self.get_size()
    }
}

impl ReadBox for MoovBox {
    /// Walks the children; the movie header is mandatory.
    fn read_box(data: &[u8], pos: &mut u64, size: u64) -> (r: Result<Self, Error>)
        ensures
            r is Ok ==> *final(pos) == *old(pos) - 8 + size,
            r is Ok ==> crate::mp4box::children_have(
                data@,
                *old(pos) as int,
                *old(pos) - 8 + size,
                BoxType::MvhdBox,
            ),
            r matches Ok(b) ==> (b.meta is Some <==> crate::mp4box::children_have(
                data@,
                *old(pos) as int,
                *old(pos) - 8 + size,
                BoxType::MetaBox,
            )),
            r matches Ok(b) ==> (b.mvex is Some <==> crate::mp4box::children_have(
                data@,
                *old(pos) as int,
                *old(pos) - 8 + size,
                BoxType::MvexBox,
            )),
            r matches Ok(b) ==> (b.udta is Some <==> crate::mp4box::children_have(
                data@,
                *old(pos) as int,
                *old(pos) - 8 + size,
                BoxType::UdtaBox,
            )),
            r matches Ok(b) ==> (b.traks@.len() > 0 <==> crate::mp4box::children_have(
                data@,
                *old(pos) as int,
                *old(pos) - 8 + size,
                BoxType::TrakBox,
            )),
    {
        let ghost p0 = *pos as int;
        let start = box_start(*pos);
        if size > u64::MAX - start {
            return Err(Error::MalformedContainer("box end does not fit in 64 bits"));
        }
        let end: u64 = start + size;
        let mut mvhd: Option<MvhdBox> = None;
        let mut meta: Option<MetaBox> = None;
        let mut mvex: Option<MvexBox> = None;
        let mut traks: Vec<TrakBox> = Vec::new();
        let mut udta: Option<UdtaBox> = None;
        while *pos < end
            invariant
                *pos >= 8,
                end <= u64::MAX,
                (mvhd is Some || crate::mp4box::children_have(
                    data@,
                    *pos as int,
                    end as int,
                    BoxType::MvhdBox,
                )) == crate::mp4box::children_have(data@, p0, end as int, BoxType::MvhdBox),
                (meta is Some || crate::mp4box::children_have(
                    data@,
                    *pos as int,
                    end as int,
                    BoxType::MetaBox,
                )) == crate::mp4box::children_have(data@, p0, end as int, BoxType::MetaBox),
                (mvex is Some || crate::mp4box::children_have(
                    data@,
                    *pos as int,
                    end as int,
                    BoxType::MvexBox,
                )) == crate::mp4box::children_have(data@, p0, end as int, BoxType::MvexBox),
                (udta is Some || crate::mp4box::children_have(
                    data@,
                    *pos as int,
                    end as int,
                    BoxType::UdtaBox,
                )) == crate::mp4box::children_have(data@, p0, end as int, BoxType::UdtaBox),
                (traks@.len() > 0 || crate::mp4box::children_have(
                    data@,
                    *pos as int,
                    end as int,
                    BoxType::TrakBox,
                )) == crate::mp4box::children_have(data@, p0, end as int, BoxType::TrakBox),
            decreases end - *pos,
        {
            let ghost q = *pos as int;
            let header = match BoxHeader::read(data, pos) {
                Ok(h) => h,
                Err(e) => {
                    return Err(e);
                },
            };
            let cend = match child_end(*pos, header.size, end) {
                Ok(v) => v,
                Err(e) => {
                    return Err(e);
                },
            };
            proof {
                assert(crate::mp4box::children_have(data@, q, end as int, BoxType::MvhdBox) == (
                crate::mp4box::header_name(data@, q) == BoxType::MvhdBox
                    || crate::mp4box::children_have(data@, cend as int, end as int, BoxType::MvhdBox)));
                assert(crate::mp4box::children_have(data@, q, end as int, BoxType::MetaBox) == (
                crate::mp4box::header_name(data@, q) == BoxType::MetaBox
                    || crate::mp4box::children_have(data@, cend as int, end as int, BoxType::MetaBox)));
                assert(crate::mp4box::children_have(data@, q, end as int, BoxType::MvexBox) == (
                crate::mp4box::header_name(data@, q) == BoxType::MvexBox
                    || crate::mp4box::children_have(data@, cend as int, end as int, BoxType::MvexBox)));
                assert(crate::mp4box::children_have(data@, q, end as int, BoxType::UdtaBox) == (
                crate::mp4box::header_name(data@, q) == BoxType::UdtaBox
                    || crate::mp4box::children_have(data@, cend as int, end as int, BoxType::UdtaBox)));
                assert(crate::mp4box::children_have(data@, q, end as int, BoxType::TrakBox) == (
                crate::mp4box::header_name(data@, q) == BoxType::TrakBox
                    || crate::mp4box::children_have(data@, cend as int, end as int, BoxType::TrakBox)));
            }
            match header.name {
                BoxType::MvhdBox => {
                    let b = match MvhdBox::read_box(data, pos, header.size) {
                        Ok(b) => b,
                        Err(e) => {
                            return Err(e);
                        },
                    };
                    mvhd = Some(b);
                },
                BoxType::MetaBox => {
                    let b = match MetaBox::read_box(data, pos, header.size) {
                        Ok(b) => b,
                        Err(e) => {
                            return Err(e);
                        },
                    };
                    meta = Some(b);
                },
                BoxType::MvexBox => {
                    let b = match MvexBox::read_box(data, pos, header.size) {
                        Ok(b) => b,
                        Err(e) => {
                            return Err(e);
                        },
                    };
                    mvex = Some(b);
                },
                BoxType::TrakBox => {
                    let b = match TrakBox::read_box(data, pos, header.size) {
                        Ok(b) => b,
                        Err(e) => {
                            return Err(e);
                        },
                    };
                    traks.push(b);
                },
                BoxType::UdtaBox => {
                    let b = match UdtaBox::read_box(data, pos, header.size) {
                        Ok(b) => b,
                        Err(e) => {
                            return Err(e);
                        },
                    };
                    udta = Some(b);
                },
                _ => {
                    *pos = cend;
                },
            }
        }
        let mvhd = match mvhd {
            Some(b) => b,
            None => {
                return Err(Error::MissingRequiredBox(BoxType::MvhdBox));
            },
        };
        match seek_end(pos, start, size) {
            Ok(()) => {},
            Err(e) => {
                return Err(e);
            },
        }
        Ok(MoovBox { mvhd, meta, mvex, traks, udta })
    }
}

} // verus!
