//! `dinf` — the data-information container box with its data-reference
//! list; this reader keeps only the default self-contained URL entry.

use crate::byteio::{be24, copy_bytes, read_u32};
use crate::error::Error;
use crate::mp4box::{
    box_start, child_end, read_box_header_ext, seek_end, BoxHeader, BoxType, Mp4Box, ReadBox,
};
use crate::strutil::utf8_or_empty;
use vstd::prelude::*;

verus! {

#[derive(Debug, Clone, PartialEq, Eq)]
pub struct DinfBox {
    pub dref: DrefBox,
}

impl DinfBox {
    pub fn get_type(&self) -> (t: BoxType)
        ensures
            t == BoxType::DinfBox,
    {
        BoxType::DinfBox
    }
}

impl Mp4Box for DinfBox {
    open spec fn size_spec(&self) -> int {
        8 + self.dref.size_spec()
    }

    proof fn size_spec_bounds(&self) {
        self.dref.size_spec_bounds();
    }

    fn box_type(&self) -> (t: BoxType) {
        self.get_type()
    }

    fn box_size(&self) -> (s: u64) {
        8 + self.dref.box_size()
    }
}

impl ReadBox for DinfBox {
    fn read_box(data: &[u8], pos: &mut u64, size: u64) -> (r: Result<Self, Error>)
        ensures
            r is Ok ==> *final(pos) == *old(pos) - 8 + size,
    {
        let start = box_start(*pos);
        if size > u64::MAX - start {
            return Err(Error::MalformedContainer("box end does not fit in 64 bits"));
        }
        let end: u64 = start + size;
        let mut dref: Option<DrefBox> = None;
        while *pos < end
            invariant
                *pos >= 8,
                end <= u64::MAX,
            decreases end - *pos,
        {
            let header = match BoxHeader::read(data, pos) {
                Ok(h) => h,
                Err(e) => {
                    return Err(e);
                },
            };
            let cend = match child_end(*pos, header.size, end) {
                Ok(v) => v,
                Err(e) => {
                    return Err(e);
                },
            };
            match header.name {
                BoxType::DrefBox => {
                    let b = match DrefBox::read_box(data, pos, header.size) {
                        Ok(b) => b,
                        Err(e) => {
                            return Err(e);
                        },
                    };
                    dref = Some(b);
                },
                _ => {
                    *pos = cend;
                },
            }
        }
        let dref = match dref {
            Some(b) => b,
            None => {
                return Err(Error::MissingRequiredBox(BoxType::DrefBox));
            },
        };
        match seek_end(pos, start, size) {
            Ok(()) => {},
            Err(e) => {
                return Err(e);
            },
        }
        Ok(DinfBox { dref })
    }
}

/// The data-reference list; only a `url ` child is decoded.
#[derive(Debug, Clone, PartialEq, Eq)]
pub struct DrefBox {
    pub version: u8,
    pub flags: u32,
    pub url: Option<UrlBox>,
}

impl DrefBox {
    pub fn get_type(&self) -> (t: BoxType)
        ensures
            t == BoxType::DrefBox,
    {
        BoxType::DrefBox
    }
}

impl Mp4Box for DrefBox {
    open spec fn size_spec(&self) -> int {
        8 + 4 + 4 + (match self.url {
            Some(u) => u.size_spec(),
            None => 0int,
        })
    }

    proof fn size_spec_bounds(&self) {
        match self.url {
            Some(u) => u.size_spec_bounds(),
            None => {},
        }
    }

    fn box_type(&self) -> (t: BoxType) {
        self.get_type()
    }

    fn box_size(&self) -> (s: u64) {
        match &self.url {
            Some(u) => 16 + u.box_size(),
            None => 16,
        }
    }
}

impl ReadBox for DrefBox {
    fn read_box(data: &[u8], pos: &mut u64, size: u64) -> (r: Result<Self, Error>)
        ensures
            r is Ok ==> *final(pos) == *old(pos) - 8 + size,
    {
        let start = box_start(*pos);
        if size > u64::MAX - start {
            return Err(Error::MalformedContainer("box end does not fit in 64 bits"));
        }
        let end: u64 = start + size;
        let (version, flags) = match read_box_header_ext(data, pos) {
            Ok(vf) => vf,
            Err(e) => {
                return Err(e);
            },
        };
        match read_u32(data, pos) {
            Ok(_) => {},
            Err(e) => {
                return Err(e);
            },
        }
        let mut url: Option<UrlBox> = None;
        while *pos < end
            invariant
                *pos >= 8,
                end <= u64::MAX,
            decreases end - *pos,
        {
            let header = match BoxHeader::read(data, pos) {
                Ok(h) => h,
                Err(e) => {
                    return Err(e);
                },
            };
            let cend = match child_end(*pos, header.size, end) {
                Ok(v) => v,
                Err(e) => {
                    return Err(e);
                },
            };
            match header.name {
                BoxType::UrlBox => {
                    let b = match UrlBox::read_box(data, pos, header.size) {
                        Ok(b) => b,
                        Err(e) => {
                            return Err(e);
                        },
                    };
                    url = Some(b);
                },
                _ => {
                    *pos = cend;
                },
            }
        }
        match seek_end(pos, start, size) {
            Ok(()) => {},
            Err(e) => {
                return Err(e);
            },
        }
        Ok(DrefBox { version, flags, url })
    }
}

/// A data-entry URL; an empty location with the self-contained flag means
/// the media lives in this very file.
#[derive(Debug, Clone, PartialEq, Eq)]
pub struct UrlBox {
    pub version: u8,
    pub flags: u32,
    pub location: String,
}

impl UrlBox {
    pub fn get_type(&self) -> (t: BoxType)
        ensures
            t == BoxType::UrlBox,
    {
        BoxType::UrlBox
    }
}

impl Mp4Box for UrlBox {
    open spec fn size_spec(&self) -> int {
        8 + 4 + (self.location@.len() as int)
    }

    proof fn size_spec_bounds(&self) {
    }

    fn box_type(&self) -> (t: BoxType) {
        self.get_type()
    }

    fn box_size(&self) -> (s: u64) {
        8 + 4 + (self.location.as_str().unicode_len() as u64)
    }
}

impl ReadBox for UrlBox {
    fn read_box(data: &[u8], pos: &mut u64, size: u64) -> (r: Result<Self, Error>)
        ensures
            r is Ok ==> *final(pos) == *old(pos) - 8 + size,
    {
        let start = box_start(*pos);
        let (version, flags) = match read_box_header_ext(data, pos) {
            Ok(vf) => vf,
            Err(e) => {
                return Err(e);
            },
        };
        if size < 12 {
            return Err(Error::MalformedContainer("url box too small"));
        }
        let buf = match copy_bytes(data, *pos, size - 12) {
            Ok(v) => v,
            Err(e) => {
                return Err(e);
            },
        };
        let location = utf8_or_empty(crate::mp4box::hdlr::take_until_nul(buf));
        match seek_end(pos, start, size) {
            Ok(()) => {},
            Err(e) => {
                return Err(e);
            },
        }
        Ok(UrlBox { version, flags, location })
    }
}

} // verus!
