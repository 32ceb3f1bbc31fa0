//! `stbl` — the sample-table container box: the run-length tables that
//! together describe every sample of a non-fragmented track.  The sample
//! description, duration table, chunk map and size table are mandatory;
//! composition offsets, the sync list and a chunk-offset table (32- or
//! 64-bit) may be absent.

use crate::error::Error;
use crate::mp4box::co64::Co64Box;
use crate::mp4box::ctts::CttsBox;
use crate::mp4box::stco::StcoBox;
use crate::mp4box::stsc::StscBox;
use crate::mp4box::stsd::StsdBox;
use crate::mp4box::stss::StssBox;
use crate::mp4box::stsz::StszBox;
use crate::mp4box::stts::SttsBox;
use crate::mp4box::{box_start, child_end, seek_end, BoxHeader, BoxType, Mp4Box, ReadBox};
use vstd::prelude::*;

verus! {

#[derive(Debug, Clone, PartialEq, Eq)]
pub struct StblBox {
    pub stsd: StsdBox,
    pub stts: SttsBox,
    pub ctts: Option<CttsBox>,
    pub stss: Option<StssBox>,
    pub stsz: StszBox,
    pub stsc: StscBox,
    pub stco: Option<StcoBox>,
    pub co64: Option<Co64Box>,
}

/// The number of chunk offsets the table of the sample table holds, from
/// whichever chunk-offset box is present.
pub open spec fn stbl_chunk_count(b: &StblBox) -> int {
    match b.stco {
        Some(stco) => stco.entries@.len() as int,
        None => match b.co64 {
            Some(co64) => co64.entries@.len() as int,
            None => 0,
        },
    }
}

/// The absolute file offset of 1-based chunk `c`.
pub open spec fn stbl_chunk_offset(b: &StblBox, c: int) -> int {
    match b.stco {
        Some(stco) => stco.entries@[c - 1] as int,
        None => match b.co64 {
            Some(co64) => co64.entries@[c - 1] as int,
            None => 0,
        },
    }
}

impl StblBox {
    pub fn get_type(&self) -> (t: BoxType)
        ensures
            t == BoxType::StblBox,
    {
        BoxType::StblBox
    }

    pub fn get_size(&self) -> (s: u64)
        requires
            self.size_spec() <= u64::MAX,
        ensures
            s as int == self.size_spec(),
    {
        proof {
            self.size_spec_bounds_parts();
        }
        let mut sum: u64 = 8;
        sum = sum + self.stsd.get_size();
        sum = sum + self.stts.get_size();
        match &self.ctts {
            Some(b) => {
                sum = sum + b.get_size();
            },
            None => {},
        }
        match &self.stss {
            Some(b) => {
                sum = sum + b.get_size();
            },
            None => {},
        }
        sum = sum + self.stsz.get_size();
        sum = sum + self.stsc.get_size();
        match &self.stco {
            Some(b) => {
                sum = sum + b.get_size();
            },
            None => {},
        }
        match &self.co64 {
            Some(b) => {
                sum = sum + b.get_size();
            },
            None => {},
        }
        sum
    }

    /// Every part of the declared size is non-negative.
    proof fn size_spec_bounds_parts(&self)
        ensures
            self.stsd.size_spec() >= 0,
            self.stts.size_spec() >= 0,
            self.stsz.size_spec() >= 0,
            self.stsc.size_spec() >= 0,
            (match self.ctts {
                Some(b) => b.size_spec(),
                None => 0int,
            }) >= 0,
            (match self.stss {
                Some(b) => b.size_spec(),
                None => 0int,
            }) >= 0,
            (match self.stco {
                Some(b) => b.size_spec(),
                None => 0int,
            }) >= 0,
            (match self.co64 {
                Some(b) => b.size_spec(),
                None => 0int,
            }) >= 0,
    {
        self.stsd.size_spec_bounds();
        self.stts.size_spec_bounds();
        self.stsz.size_spec_bounds();
        self.stsc.size_spec_bounds();
        match self.ctts {
            Some(b) => b.size_spec_bounds(),
            None => {},
        }
        match self.stss {
            Some(b) => b.size_spec_bounds(),
            None => {},
        }
        match self.stco {
            Some(b) => b.size_spec_bounds(),
            None => {},
        }
        match self.co64 {
            Some(b) => b.size_spec_bounds(),
            None => {},
        }
    }
}

impl Mp4Box for StblBox {
    open spec fn size_spec(&self) -> int {
        8 + self.stsd.size_spec() + self.stts.size_spec() + (match self.ctts {
            Some(b) => b.size_spec(),
            None => 0int,
        }) + (match self.stss {
            Some(b) => b.size_spec(),
            None => 0int,
        }) + self.stsz.size_spec() + self.stsc.size_spec() + (match self.stco {
            Some(b) => b.size_spec(),
            None => 0int,
        }) + (match self.co64 {
            Some(b) => b.size_spec(),
            None => 0int,
        })
    }

    proof fn size_spec_bounds(&self) {
        self.size_spec_bounds_parts();
    }

    fn box_type(&self) -> (t: BoxType) {
        self.get_type()
    }

    fn box_size(&self) -> (s: u64) {
        self.get_size()
    }
}

impl ReadBox for StblBox {
    /// Walks the children and decodes each recognized table; the sample
    /// description, duration table, chunk map and size table must all be
    /// present.
    #[verifier::rlimit(100)]
    fn read_box(data: &[u8], pos: &mut u64, size: u64) -> (r: Result<Self, Error>)
        ensures
            r is Ok ==> *final(pos) == *old(pos) - 8 + size,
            r is Ok ==> crate::mp4box::children_have(
                data@,
                *old(pos) as int,
                *old(pos) - 8 + size,
                BoxType::StsdBox,
            ),
            r is Ok ==> crate::mp4box::children_have(
                data@,
                *old(pos) as int,
                *old(pos) - 8 + size,
                BoxType::SttsBox,
            ),
            r is Ok ==> crate::mp4box::children_have(
                data@,
                *old(pos) as int,
                *old(pos) - 8 + size,
                BoxType::StszBox,
            ),
            r is Ok ==> crate::mp4box::children_have(
                data@,
                *old(pos) as int,
                *old(pos) - 8 + size,
                BoxType::StscBox,
            ),
            r matches Ok(b) ==> (b.ctts is Some <==> crate::mp4box::children_have(
                data@,
                *old(pos) as int,
                *old(pos) - 8 + size,
                BoxType::CttsBox,
            )),
            r matches Ok(b) ==> (b.stss is Some <==> crate::mp4box::children_have(
                data@,
                *old(pos) as int,
                *old(pos) - 8 + size,
                BoxType::StssBox,
            )),
            r matches Ok(b) ==> (b.stco is Some <==> crate::mp4box::children_have(
                data@,
                *old(pos) as int,
                *old(pos) - 8 + size,
                BoxType::StcoBox,
            )),
            r matches Ok(b) ==> (b.co64 is Some <==> crate::mp4box::children_have(
                data@,
                *old(pos) as int,
                *old(pos) - 8 + size,
                BoxType::Co64Box,
            )),
    {
        let ghost p0 = *pos as int;
        let start = box_start(*pos);
        if size > u64::MAX - start {
            return Err(Error::MalformedContainer("box end does not fit in 64 bits"));
        }
        let end: u64 = start + size;
        let mut stsd: Option<StsdBox> = None;
        let mut stts: Option<SttsBox> = None;
        let mut ctts: Option<CttsBox> = None;
        let mut stss: Option<StssBox> = None;
        let mut stsz: Option<StszBox> = None;
        let mut stsc: Option<StscBox> = None;
        let mut stco: Option<StcoBox> = None;
        let mut co64: Option<Co64Box> = None;
        while *pos < end
            invariant
                *pos >= 8,
                end <= u64::MAX,
                (stsd is Some || crate::mp4box::children_have(
                    data@,
                    *pos as int,
                    end as int,
                    BoxType::StsdBox,
                )) == crate::mp4box::children_have(data@, p0, end as int, BoxType::StsdBox),
                (stts is Some || crate::mp4box::children_have(
                    data@,
                    *pos as int,
                    end as int,
                    BoxType::SttsBox,
                )) == crate::mp4box::children_have(data@, p0, end as int, BoxType::SttsBox),
                (ctts is Some || crate::mp4box::children_have(
                    data@,
                    *pos as int,
                    end as int,
                    BoxType::CttsBox,
                )) == crate::mp4box::children_have(data@, p0, end as int, BoxType::CttsBox),
                (stss is Some || crate::mp4box::children_have(
                    data@,
                    *pos as int,
                    end as int,
                    BoxType::StssBox,
                )) == crate::mp4box::children_have(data@, p0, end as int, BoxType::StssBox),
                (stsz is Some || crate::mp4box::children_have(
                    data@,
                    *pos as int,
                    end as int,
                    BoxType::StszBox,
                )) == crate::mp4box::children_have(data@, p0, end as int, BoxType::StszBox),
                (stsc is Some || crate::mp4box::children_have(
                    data@,
                    *pos as int,
                    end as int,
                    BoxType::StscBox,
                )) == crate::mp4box::children_have(data@, p0, end as int, BoxType::StscBox),
                (stco is Some || crate::mp4box::children_have(
                    data@,
                    *pos as int,
                    end as int,
                    BoxType::StcoBox,
                )) == crate::mp4box::children_have(data@, p0, end as int, BoxType::StcoBox),
                (co64 is Some || crate::mp4box::children_have(
                    data@,
                    *pos as int,
                    end as int,
                    BoxType::Co64Box,
                )) == crate::mp4box::children_have(data@, p0, end as int, BoxType::Co64Box),
            decreases end - *pos,
        {
            let ghost q = *pos as int;
            let header = match BoxHeader::read(data, pos) {
                Ok(h) => h,
                Err(e) => {
                    return Err(e);
                },
            };
            let cend = match child_end(*pos, header.size, end) {
                Ok(v) => v,
                Err(e) => {
                    return Err(e);
                },
            };
            proof {
                assert(crate::mp4box::children_have(data@, q, end as int, BoxType::StsdBox) == (
                crate::mp4box::header_name(data@, q) == BoxType::StsdBox
                    || crate::mp4box::children_have(data@, cend as int, end as int, BoxType::StsdBox)));
                assert(crate::mp4box::children_have(data@, q, end as int, BoxType::SttsBox) == (
                crate::mp4box::header_name(data@, q) == BoxType::SttsBox
                    || crate::mp4box::children_have(data@, cend as int, end as int, BoxType::SttsBox)));
                assert(crate::mp4box::children_have(data@, q, end as int, BoxType::CttsBox) == (
                crate::mp4box::header_name(data@, q) == BoxType::CttsBox
                    || crate::mp4box::children_have(data@, cend as int, end as int, BoxType::CttsBox)));
                assert(crate::mp4box::children_have(data@, q, end as int, BoxType::StssBox) == (
                crate::mp4box::header_name(data@, q) == BoxType::StssBox
                    || crate::mp4box::children_have(data@, cend as int, end as int, BoxType::StssBox)));
                assert(crate::mp4box::children_have(data@, q, end as int, BoxType::StszBox) == (
                crate::mp4box::header_name(data@, q) == BoxType::StszBox
                    || crate::mp4box::children_have(data@, cend as int, end as int, BoxType::StszBox)));
                assert(crate::mp4box::children_have(data@, q, end as int, BoxType::StscBox) == (
                crate::mp4box::header_name(data@, q) == BoxType::StscBox
                    || crate::mp4box::children_have(data@, cend as int, end as int, BoxType::StscBox)));
                assert(crate::mp4box::children_have(data@, q, end as int, BoxType::StcoBox) == (
                crate::mp4box::header_name(data@, q) == BoxType::StcoBox
                    || crate::mp4box::children_have(data@, cend as int, end as int, BoxType::StcoBox)));
                assert(crate::mp4box::children_have(data@, q, end as int, BoxType::Co64Box) == (
                crate::mp4box::header_name(data@, q) == BoxType::Co64Box
                    || crate::mp4box::children_have(data@, cend as int, end as int, BoxType::Co64Box)));
            }
            match header.name {
                BoxType::StsdBox => {
                    let b = match StsdBox::read_box(data, pos, header.size) {
                        Ok(b) => b,
                        Err(e) => {
                            return Err(e);
                        },
                    };
                    stsd = Some(b);
                },
                BoxType::SttsBox => {
                    let b = match SttsBox::read_box(data, pos, header.size) {
                        Ok(b) => b,
                        Err(e) => {
                            return Err(e);
                        },
                    };
                    stts = Some(b);
                },
                BoxType::CttsBox => {
                    let b = match CttsBox::read_box(data, pos, header.size) {
                        Ok(b) => b,
                        Err(e) => {
                            return Err(e);
                        },
                    };
                    ctts = Some(b);
                },
                BoxType::StssBox => {
                    let b = match StssBox::read_box(data, pos, header.size) {
                        Ok(b) => b,
                        Err(e) => {
                            return Err(e);
                        },
                    };
                    stss = Some(b);
                },
                BoxType::StszBox => {
                    let b = match StszBox::read_box(data, pos, header.size) {
                        Ok(b) => b,
                        Err(e) => {
                            return Err(e);
                        },
                    };
                    stsz = Some(b);
                },
                BoxType::StscBox => {
                    let b = match StscBox::read_box(data, pos, header.size) {
                        Ok(b) => b,
                        Err(e) => {
                            return Err(e);
                        },
                    };
                    stsc = Some(b);
                },
                BoxType::StcoBox => {
                    let b = match StcoBox::read_box(data, pos, header.size) {
                        Ok(b) => b,
                        Err(e) => {
                            return Err(e);
                        },
                    };
                    stco = Some(b);
                },
                BoxType::Co64Box => {
                    let b = match Co64Box::read_box(data, pos, header.size) {
                        Ok(b) => b,
                        Err(e) => {
                            return Err(e);
                        },
                    };
                    co64 = Some(b);
                },
                _ => {
                    *pos = cend;
                },
            }
        }
        let stsd = match stsd {
            Some(b) => b,
            None => {
                return Err(Error::MissingRequiredBox(BoxType::StsdBox));
            },
        };
        let stts = match stts {
            Some(b) => b,
            None => {
                return Err(Error::MissingRequiredBox(BoxType::SttsBox));
            },
        };
        let stsz = match stsz {
            Some(b) => b,
            None => {
                return Err(Error::MissingRequiredBox(BoxType::StszBox));
            },
        };
        let stsc = match stsc {
            Some(b) => b,
            None => {
                return Err(Error::MissingRequiredBox(BoxType::StscBox));
            },
        };
        match seek_end(pos, start, size) {
            Ok(()) => {},
            Err(e) => {
                return Err(e);
            },
        }
        Ok(StblBox { stsd, stts, ctts, stss, stsz, stsc, stco, co64 })
    }
}

} // verus!
