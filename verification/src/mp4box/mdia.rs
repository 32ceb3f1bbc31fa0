//! `mdia` — the media container box: the media header, the handler that
//! names the medium, and the media information with its sample table.

use crate::error::Error;
use crate::mp4box::hdlr::HdlrBox;
use crate::mp4box::mdhd::MdhdBox;
use crate::mp4box::minf::MinfBox;
use crate::mp4box::{box_start, child_end, seek_end, BoxHeader, BoxType, Mp4Box, ReadBox};
use vstd::prelude::*;

verus! {

#[derive(Debug, Clone, PartialEq, Eq)]
pub struct MdiaBox {
    pub mdhd: MdhdBox,
    pub hdlr: HdlrBox,
    pub minf: MinfBox,
}

impl MdiaBox {
    pub fn get_type(&self) -> (t: BoxType)
        ensures
            t == BoxType::MdiaBox,
    {
        BoxType::MdiaBox
    }

    pub fn get_size(&self) -> (s: u64)
        requires
            self.size_spec() <= u64::MAX,
        ensures
            s as int == self.size_spec(),
    {
        proof {
            self.mdhd.size_spec_bounds();
            self.hdlr.size_spec_bounds();
            self.minf.size_spec_bounds();
        }
        8 + self.mdhd.get_size() + self.hdlr.box_size() + self.minf.box_size()
    }
}

impl Mp4Box for MdiaBox {
    open spec fn size_spec(&self) -> int {
        8 + self.mdhd.size_spec() + self.hdlr.size_spec() + self.minf.size_spec()
    }

    proof fn size_spec_bounds(&self) {
        self.mdhd.size_spec_bounds();
        self.hdlr.size_spec_bounds();
        self.minf.size_spec_bounds();
    }

    fn box_type(&self) -> (t: BoxType) {
        self.get_type()
    }

    fn box_size(&self) -> (s: u64) {
        self.get_size()
    }
}

impl ReadBox for MdiaBox {
    /// Walks the children; the media header, handler and media information
    /// are all mandatory.
    fn read_box(data: &[u8], pos: &mut u64, size: u64) -> (r: Result<Self, Error>)
        ensures
            r is Ok ==> *final(pos) == *old(pos) - 8 + size,
            r is Ok ==> crate::mp4box::children_have(
                data@,
                *old(pos) as int,
                *old(pos) - 8 + size,
                BoxType::MdhdBox,
            ),
            r is Ok ==> crate::mp4box::children_have(
                data@,
                *old(pos) as int,
                *old(pos) - 8 + size,
                BoxType::HdlrBox,
            ),
            r is Ok ==> crate::mp4box::children_have(
                data@,
                *old(pos) as int,
                *old(pos) - 8 + size,
                BoxType::MinfBox,
            ),
    {
        let ghost p0 = *pos as int;
        let start = box_start(*pos);
        if size > u64::MAX - start {
            return Err(Error::MalformedContainer("box end does not fit in 64 bits"));
        }
        let end: u64 = start + size;
        let mut mdhd: Option<MdhdBox> = None;
        let mut hdlr: Option<HdlrBox> = None;
        let mut minf: Option<MinfBox> = None;
        while *pos < end
            invariant
                *pos >= 8,
                end <= u64::MAX,
                (mdhd is Some || crate::mp4box::children_have(
                    data@,
                    *pos as int,
                    end as int,
                    BoxType::MdhdBox,
                )) == crate::mp4box::children_have(data@, p0, end as int, BoxType::MdhdBox),
                (hdlr is Some || crate::mp4box::children_have(
                    data@,
                    *pos as int,
                    end as int,
                    BoxType::HdlrBox,
                )) == crate::mp4box::children_have(data@, p0, end as int, BoxType::HdlrBox),
                (minf is Some || crate::mp4box::children_have(
                    data@,
                    *pos as int,
                    end as int,
                    BoxType::MinfBox,
                )) == crate::mp4box::children_have(data@, p0, end as int, BoxType::MinfBox),
            decreases end - *pos,
        {
            let ghost q = *pos as int;
            let header = match BoxHeader::read(data, pos) {
                Ok(h) => h,
                Err(e) => {
                    return Err(e);
                },
            };
            let cend = match child_end(*pos, header.size, end) {
                Ok(v) => v,
                Err(e) => {
                    return Err(e);
                },
            };
            proof {
                assert(crate::mp4box::children_have(data@, q, end as int, BoxType::MdhdBox) == (
                crate::mp4box::header_name(data@, q) == BoxType::MdhdBox
                    || crate::mp4box::children_have(data@, cend as int, end as int, BoxType::MdhdBox)));
                assert(crate::mp4box::children_have(data@, q, end as int, BoxType::HdlrBox) == (
                crate::mp4box::header_name(data@, q) == BoxType::HdlrBox
                    || crate::mp4box::children_have(data@, cend as int, end as int, BoxType::HdlrBox)));
                assert(crate::mp4box::children_have(data@, q, end as int, BoxType::MinfBox) == (
                crate::mp4box::header_name(data@, q) == BoxType::MinfBox
                    || crate::mp4box::children_have(data@, cend as int, end as int, BoxType::MinfBox)));
            }
            match header.name {
                BoxType::MdhdBox => {
                    let b = match MdhdBox::read_box(data, pos, header.size) {
                        Ok(b) => b,
                        Err(e) => {
                            return Err(e);
                        },
                    };
                    mdhd = Some(b);
                },
                BoxType::HdlrBox => {
                    let b = match HdlrBox::read_box(data, pos, header.size) {
                        Ok(b) => b,
                        Err(e) => {
                            return Err(e);
                        },
                    };
                    hdlr = Some(b);
                },
                BoxType::MinfBox => {
                    let b = match MinfBox::read_box(data, pos, header.size) {
                        Ok(b) => b,
                        Err(e) => {
                            return Err(e);
                        },
                    };
                    minf = Some(b);
                },
                _ => {
                    *pos = cend;
                },
            }
        }
        let mdhd = match mdhd {
            Some(b) => b,
            None => {
                return Err(Error::MissingRequiredBox(BoxType::MdhdBox));
            },
        };
        let hdlr = match hdlr {
            Some(b) => b,
            None => {
                return Err(Error::MissingRequiredBox(BoxType::HdlrBox));
            },
        };
        let minf = match minf {
            Some(b) => b,
            None => {
                return Err(Error::MissingRequiredBox(BoxType::MinfBox));
            },
        };
        match seek_end(pos, start, size) {
            Ok(()) => {},
            Err(e) => {
                return Err(e);
            },
        }
        Ok(MdiaBox { mdhd, hdlr, minf })
    }
}

} // verus!
