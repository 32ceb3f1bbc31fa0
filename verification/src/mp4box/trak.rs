//! `trak` — the track container box: the track header, an optional edit
//! list, optional metadata, and the media box with the sample tables.

use crate::error::Error;
use crate::mp4box::edts::EdtsBox;
use crate::mp4box::mdia::MdiaBox;
use crate::mp4box::meta::MetaBox;
use crate::mp4box::tkhd::TkhdBox;
use crate::mp4box::{box_start, child_end, seek_end, BoxHeader, BoxType, Mp4Box, ReadBox};
use vstd::prelude::*;

verus! {

#[derive(Debug, Clone, PartialEq, Eq)]
pub struct TrakBox {
    pub tkhd: TkhdBox,
    pub edts: Option<EdtsBox>,
    pub meta: Option<MetaBox>,
    pub mdia: MdiaBox,
}

impl TrakBox {
    pub fn get_type(&self) -> (t: BoxType)
        ensures
            t == BoxType::TrakBox,
    {
        BoxType::TrakBox
    }

    pub fn get_size(&self) -> (s: u64)
        requires
            self.size_spec() <= u64::MAX,
        ensures
            s as int == self.size_spec(),
    {
        proof {
            self.tkhd.size_spec_bounds();
            self.mdia.size_spec_bounds();
            match &self.edts {
                Some(b) => b.size_spec_bounds(),
                None => {},
            }
            match &self.meta {
                Some(b) => b.size_spec_bounds(),
                None => {},
            }
        }
        let mut sum: u64 = 8 + self.tkhd.get_size();
        match &self.edts {
            Some(b) => {
                sum = sum + b.get_size();
            },
            None => {},
        }
        match &self.meta {
            Some(b) => {
                sum = sum + b.get_size();
            },
            None => {},
        }
        sum + self.mdia.get_size()
    }
}

impl Mp4Box for TrakBox {
    open spec fn size_spec(&self) -> int {
        8 + self.tkhd.size_spec() + (match self.edts {
            Some(b) => b.size_spec(),
            None => 0int,
        }) + (match self.meta {
            Some(b) => b.size_spec(),
            None => 0int,
        }) + self.mdia.size_spec()
    }

    proof fn size_spec_bounds(&self) {
        self.tkhd.size_spec_bounds();
        self.mdia.size_spec_bounds();
        match self.edts {
            Some(b) => b.size_spec_bounds(),
            None => {},
        }
        match self.meta {
            Some(b) => b.size_spec_bounds(),
            None => {},
        }
    }

    fn box_type(&self) -> (t: BoxType) {
        self.get_type()
    }

    fn box_size(&self) -> (s: u64) {
        self.get_size()
    }
}

impl ReadBox for TrakBox {
    /// Walks the children; the track header and the media box are
    /// mandatory.
    fn read_box(data: &[u8], pos: &mut u64, size: u64) -> (r: Result<Self, Error>)
        ensures
            r is Ok ==> *final(pos) == *old(pos) - 8 + size,
            r is Ok ==> crate::mp4box::children_have(
                data@,
                *old(pos) as int,
                *old(pos) - 8 + size,
                BoxType::TkhdBox,
            ),
            r is Ok ==> crate::mp4box::children_have(
                data@,
                *old(pos) as int,
                *old(pos) - 8 + size,
                BoxType::MdiaBox,
            ),
            r matches Ok(b) ==> (b.edts is Some <==> crate::mp4box::children_have(
                data@,
                *old(pos) as int,
                *old(pos) - 8 + size,
                BoxType::EdtsBox,
            )),
            r matches Ok(b) ==> (b.meta is Some <==> crate::mp4box::children_have(
                data@,
                *old(pos) as int,
                *old(pos) - 8 + size,
                BoxType::MetaBox,
            )),
    {
        let ghost p0 = *pos as int;
        let start = box_start(*pos);
        if size > u64::MAX - start {
            return Err(Error::MalformedContainer("box end does not fit in 64 bits"));
        }
        let end: u64 = start + size;
        let mut tkhd: Option<TkhdBox> = None;
        let mut edts: Option<EdtsBox> = None;
        let mut meta: Option<MetaBox> = None;
        let mut mdia: Option<MdiaBox> = None;
        while *pos < end
            invariant
                *pos >= 8,
                end <= u64::MAX,
                (tkhd is Some || crate::mp4box::children_have(
                    data@,
                    *pos as int,
                    end as int,
                    BoxType::TkhdBox,
                )) == crate::mp4box::children_have(data@, p0, end as int, BoxType::TkhdBox),
                (edts is Some || crate::mp4box::children_have(
                    data@,
                    *pos as int,
                    end as int,
                    BoxType::EdtsBox,
                )) == crate::mp4box::children_have(data@, p0, end as int, BoxType::EdtsBox),
                (meta is Some || crate::mp4box::children_have(
                    data@,
                    *pos as int,
                    end as int,
                    BoxType::MetaBox,
                )) == crate::mp4box::children_have(data@, p0, end as int, BoxType::MetaBox),
                (mdia is Some || crate::mp4box::children_have(
                    data@,
                    *pos as int,
                    end as int,
                    BoxType::MdiaBox,
                )) == crate::mp4box::children_have(data@, p0, end as int, BoxType::MdiaBox),
            decreases end - *pos,
        {
            let ghost q = *pos as int;
            let header = match BoxHeader::read(data, pos) {
                Ok(h) => h,
                Err(e) => {
                    return Err(e);
                },
            };
            let cend = match child_end(*pos, header.size, end) {
                Ok(v) => v,
                Err(e) => {
                    return Err(e);
                },
            };
            proof {
                assert(crate::mp4box::children_have(data@, q, end as int, BoxType::TkhdBox) == (
                crate::mp4box::header_name(data@, q) == BoxType::TkhdBox
                    || crate::mp4box::children_have(data@, cend as int, end as int, BoxType::TkhdBox)));
                assert(crate::mp4box::children_have(data@, q, end as int, BoxType::EdtsBox) == (
                crate::mp4box::header_name(data@, q) == BoxType::EdtsBox
                    || crate::mp4box::children_have(data@, cend as int, end as int, BoxType::EdtsBox)));
                assert(crate::mp4box::children_have(data@, q, end as int, BoxType::MetaBox) == (
                crate::mp4box::header_name(data@, q) == BoxType::MetaBox
                    || crate::mp4box::children_have(data@, cend as int, end as int, BoxType::MetaBox)));
                assert(crate::mp4box::children_have(data@, q, end as int, BoxType::MdiaBox) == (
                crate::mp4box::header_name(data@, q) == BoxType::MdiaBox
                    || crate::mp4box::children_have(data@, cend as int, end as int, BoxType::MdiaBox)));
            }
            match header.name {
                BoxType::TkhdBox => {
                    let b = match TkhdBox::read_box(data, pos, header.size) {
                        Ok(b) => b,
                        Err(e) => {
                            return Err(e);
                        },
                    };
                    tkhd = Some(b);
                },
                BoxType::EdtsBox => {
                    let b = match EdtsBox::read_box(data, pos, header.size) {
                        Ok(b) => b,
                        Err(e) => {
                            return Err(e);
                        },
                    };
                    edts = Some(b);
                },
                BoxType::MetaBox => {
                    let b = match MetaBox::read_box(data, pos, header.size) {
                        Ok(b) => b,
                        Err(e) => {
                            return Err(e);
                        },
                    };
                    meta = Some(b);
                },
                BoxType::MdiaBox => {
                    let b = match MdiaBox::read_box(data, pos, header.size) {
                        Ok(b) => b,
                        Err(e) => {
                            return Err(e);
                        },
                    };
                    mdia = Some(b);
                },
                _ => {
                    *pos = cend;
                },
            }
        }
        let tkhd = match tkhd {
            Some(b) => b,
            None => {
                return Err(Error::MissingRequiredBox(BoxType::TkhdBox));
            },
        };
        let mdia = match mdia {
            Some(b) => b,
            None => {
                return Err(Error::MissingRequiredBox(BoxType::MdiaBox));
            },
        };
        match seek_end(pos, start, size) {
            Ok(()) => {},
            Err(e) => {
                return Err(e);
            },
        }
        Ok(TrakBox { tkhd, edts, meta, mdia })
    }
}

} // verus!
