//! `minf` — the media-information container box: the per-medium header
//! (video or sound), the data information, and the sample table.

use crate::error::Error;
use crate::mp4box::dinf::DinfBox;
use crate::mp4box::smhd::SmhdBox;
use crate::mp4box::stbl::StblBox;
use crate::mp4box::vmhd::VmhdBox;
use crate::mp4box::{box_start, child_end, seek_end, BoxHeader, BoxType, Mp4Box, ReadBox};
use vstd::prelude::*;

verus! {

#[derive(Debug, Clone, PartialEq, Eq)]
pub struct MinfBox {
    pub vmhd: Option<VmhdBox>,
    pub smhd: Option<SmhdBox>,
    pub dinf: Option<DinfBox>,
    pub stbl: StblBox,
}

impl MinfBox {
    pub fn get_type(&self) -> (t: BoxType)
        ensures
            t == BoxType::MinfBox,
    {
        BoxType::MinfBox
    }
}

impl Mp4Box for MinfBox {
    open spec fn size_spec(&self) -> int {
        8 + (match self.vmhd {
            Some(b) => b.size_spec(),
            None => 0int,
        }) + (match self.smhd {
            Some(b) => b.size_spec(),
            None => 0int,
        }) + (match self.dinf {
            Some(b) => b.size_spec(),
            None => 0int,
        }) + self.stbl.size_spec()
    }

    proof fn size_spec_bounds(&self) {
        match self.vmhd {
            Some(b) => b.size_spec_bounds(),
            None => {},
        }
        match self.smhd {
            Some(b) => b.size_spec_bounds(),
            None => {},
        }
        match self.dinf {
            Some(b) => b.size_spec_bounds(),
            None => {},
        }
        self.stbl.size_spec_bounds();
    }

    fn box_size(&self) -> (s: u64) {
        proof {
            self.size_spec_bounds();
            match &self.vmhd {
                Some(b) => b.size_spec_bounds(),
                None => {},
            }
            match &self.smhd {
                Some(b) => b.size_spec_bounds(),
                None => {},
            }
            match &self.dinf {
                Some(b) => b.size_spec_bounds(),
                None => {},
            }
            self.stbl.size_spec_bounds();
        }
        let mut sum: u64 = 8;
        match &self.vmhd {
            Some(b) => {
                sum = sum + b.box_size();
            },
            None => {},
        }
        match &self.smhd {
            Some(b) => {
                sum = sum + b.box_size();
            },
            None => {},
        }
        match &self.dinf {
            Some(b) => {
                sum = sum + b.box_size();
            },
            None => {},
        }
        sum + self.stbl.box_size()
    }

    fn box_type(&self) -> (t: BoxType) {
        self.get_type()
    }
}

impl ReadBox for MinfBox {
    /// Walks the children; the sample table is mandatory.
    fn read_box(data: &[u8], pos: &mut u64, size: u64) -> (r: Result<Self, Error>)
        ensures
            r is Ok ==> *final(pos) == *old(pos) - 8 + size,
            r is Ok ==> crate::mp4box::children_have(
                data@,
                *old(pos) as int,
                *old(pos) - 8 + size,
                BoxType::StblBox,
            ),
            r matches Ok(b) ==> (b.vmhd is Some <==> crate::mp4box::children_have(
                data@,
                *old(pos) as int,
                *old(pos) - 8 + size,
                BoxType::VmhdBox,
            )),
            r matches Ok(b) ==> (b.smhd is Some <==> crate::mp4box::children_have(
                data@,
                *old(pos) as int,
                *old(pos) - 8 + size,
                BoxType::SmhdBox,
            )),
            r matches Ok(b) ==> (b.dinf is Some <==> crate::mp4box::children_have(
                data@,
                *old(pos) as int,
                *old(pos) - 8 + size,
                BoxType::DinfBox,
            )),
    {
        let ghost p0 = *pos as int;
        let start = box_start(*pos);
        if size > u64::MAX - start {
            return Err(Error::MalformedContainer("box end does not fit in 64 bits"));
        }
        let end: u64 = start + size;
        let mut vmhd: Option<VmhdBox> = None;
        let mut smhd: Option<SmhdBox> = None;
        let mut dinf: Option<DinfBox> = None;
        let mut stbl: Option<StblBox> = None;
        while *pos < end
            invariant
                *pos >= 8,
                end <= u64::MAX,
                (vmhd is Some || crate::mp4box::children_have(
                    data@,
                    *pos as int,
                    end as int,
                    BoxType::VmhdBox,
                )) == crate::mp4box::children_have(data@, p0, end as int, BoxType::VmhdBox),
                (smhd is Some || crate::mp4box::children_have(
                    data@,
                    *pos as int,
                    end as int,
                    BoxType::SmhdBox,
                )) == crate::mp4box::children_have(data@, p0, end as int, BoxType::SmhdBox),
                (dinf is Some || crate::mp4box::children_have(
                    data@,
                    *pos as int,
                    end as int,
                    BoxType::DinfBox,
                )) == crate::mp4box::children_have(data@, p0, end as int, BoxType::DinfBox),
                (stbl is Some || crate::mp4box::children_have(
                    data@,
                    *pos as int,
                    end as int,
                    BoxType::StblBox,
                )) == crate::mp4box::children_have(data@, p0, end as int, BoxType::StblBox),
            decreases end - *pos,
        {
            let ghost q = *pos as int;
            let header = match BoxHeader::read(data, pos) {
                Ok(h) => h,
                Err(e) => {
                    return Err(e);
                },
            };
            let cend = match child_end(*pos, header.size, end) {
                Ok(v) => v,
                Err(e) => {
                    return Err(e);
                },
            };
            proof {
                assert(crate::mp4box::children_have(data@, q, end as int, BoxType::VmhdBox) == (
                crate::mp4box::header_name(data@, q) == BoxType::VmhdBox
                    || crate::mp4box::children_have(data@, cend as int, end as int, BoxType::VmhdBox)));
                assert(crate::mp4box::children_have(data@, q, end as int, BoxType::SmhdBox) == (
                crate::mp4box::header_name(data@, q) == BoxType::SmhdBox
                    || crate::mp4box::children_have(data@, cend as int, end as int, BoxType::SmhdBox)));
                assert(crate::mp4box::children_have(data@, q, end as int, BoxType::DinfBox) == (
                crate::mp4box::header_name(data@, q) == BoxType::DinfBox
                    || crate::mp4box::children_have(data@, cend as int, end as int, BoxType::DinfBox)));
                assert(crate::mp4box::children_have(data@, q, end as int, BoxType::StblBox) == (
                crate::mp4box::header_name(data@, q) == BoxType::StblBox
                    || crate::mp4box::children_have(data@, cend as int, end as int, BoxType::StblBox)));
            }
            match header.name {
                BoxType::VmhdBox => {
                    let b = match VmhdBox::read_box(data, pos, header.size) {
                        Ok(b) => b,
                        Err(e) => {
                            return Err(e);
                        },
                    };
                    vmhd = Some(b);
                },
                BoxType::SmhdBox => {
                    let b = match SmhdBox::read_box(data, pos, header.size) {
                        Ok(b) => b,
                        Err(e) => {
                            return Err(e);
                        },
                    };
                    smhd = Some(b);
                },
                BoxType::DinfBox => {
                    let b = match DinfBox::read_box(data, pos, header.size) {
                        Ok(b) => b,
                        Err(e) => {
                            return Err(e);
                        },
                    };
                    dinf = Some(b);
                },
                BoxType::StblBox => {
                    let b = match StblBox::read_box(data, pos, header.size) {
                        Ok(b) => b,
                        Err(e) => {
                            return Err(e);
                        },
                    };
                    stbl = Some(b);
                },
                _ => {
                    *pos = cend;
                },
            }
        }
        let stbl = match stbl {
            Some(b) => b,
            None => {
                return Err(Error::MissingRequiredBox(BoxType::StblBox));
            },
        };
        match seek_end(pos, start, size) {
            Ok(()) => {},
            Err(e) => {
                return Err(e);
            },
        }
        Ok(MinfBox { vmhd, smhd, dinf, stbl })
    }
}

} // verus!
