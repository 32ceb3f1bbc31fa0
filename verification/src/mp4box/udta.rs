//! `udta` — the user-data container box, holding at most a `meta` child.

use crate::error::Error;
use crate::mp4box::meta::MetaBox;
use crate::mp4box::{box_start, child_end, seek_end, BoxHeader, BoxType, Mp4Box, ReadBox};
use vstd::prelude::*;

verus! {

#[derive(Debug, Clone, PartialEq, Eq)]
pub struct UdtaBox {
    pub meta: Option<MetaBox>,
}

impl UdtaBox {
    pub fn get_type(&self) -> (t: BoxType)
        ensures
            t == BoxType::UdtaBox,
    {
        BoxType::UdtaBox
    }

    pub fn get_size(&self) -> (s: u64)
        requires
            self.size_spec() <= u64::MAX,
        ensures
            s as int == self.size_spec(),
    {
        match &self.meta {
            Some(meta) => {
                proof {
                    meta.size_spec_bounds();
                }
                8 + meta.get_size()
            },
            None => 8,
        }
    }
}

impl Mp4Box for UdtaBox {
    open spec fn size_spec(&self) -> int {
        8 + (match self.meta {
            Some(m) => m.size_spec(),
            None => 0int,
        })
    }

    proof fn size_spec_bounds(&self) {
        match self.meta {
            Some(m) => m.size_spec_bounds(),
            None => {},
        }
    }

    fn box_type(&self) -> (t: BoxType) {
        self.get_type()
    }

    fn box_size(&self) -> (s: u64) {
        self.get_size()
    }
}

impl ReadBox for UdtaBox {
    fn read_box(data: &[u8], pos: &mut u64, size: u64) -> (r: Result<Self, Error>)
        ensures
            r is Ok ==> *final(pos) == *old(pos) - 8 + size,
    {
        let start = box_start(*pos);
        if size > u64::MAX - start {
            return Err(Error::MalformedContainer("box end does not fit in 64 bits"));
        }
        let end: u64 = start + size;
        let mut meta: Option<MetaBox> = None;
        while *pos < end
            invariant
                *pos >= 8,
                end <= u64::MAX,
            decreases end - *pos,
        {
            let header = match BoxHeader::read(data, pos) {
                Ok(h) => h,
                Err(e) => {
                    return Err(e);
                },
            };
            let cend = match child_end(*pos, header.size, end) {
                Ok(v) => v,
                Err(e) => {
                    return Err(e);
                },
            };
            match header.name {
                BoxType::MetaBox => {
                    let b = match MetaBox::read_box(data, pos, header.size) {
                        Ok(b) => b,
                        Err(e) => {
                            return Err(e);
                        },
                    };
                    meta = Some(b);
                },
                _ => {
                    *pos = cend;
                },
            }
        }
        match seek_end(pos, start, size) {
            Ok(()) => {},
            Err(e) => {
                return Err(e);
            },
        }
        Ok(UdtaBox { meta })
    }
}

} // verus!
