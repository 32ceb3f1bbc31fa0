//! `meta` — the metadata container box.  Its handler decides the shape: a
//! `mdir` handler brings an item list, anything else is kept as raw child
//! boxes.  Some writers emit `meta` as a plain box rather than a full box,
//! recognized by a handler child starting where the version word would be.

use crate::byteio::{copy_bytes, read_u32};
use crate::error::Error;
use crate::mp4box::hdlr::HdlrBox;
use crate::mp4box::ilst::IlstBox;
use crate::mp4box::{
    box_start, child_end, lemma_sum_box_sizes_nonneg, lemma_sum_box_sizes_take_le,
    lemma_sum_box_sizes_take_step, seek_end, sum_box_sizes, BoxHeader, BoxType, Mp4Box, ReadBox,
};
use vstd::prelude::*;

verus! {

/// An undecoded child box of an unrecognized `meta` handler: its type code
/// and body bytes.
#[derive(Debug, Clone, PartialEq, Eq)]
pub struct RawChildBox {
    pub name: BoxType,
    pub data: Vec<u8>,
}

impl Mp4Box for RawChildBox {
    open spec fn size_spec(&self) -> int {
        8 + (self.data@.len() as int)
    }

    proof fn size_spec_bounds(&self) {
    }

    fn box_type(&self) -> (t: BoxType) {
        self.name
    }

    fn box_size(&self) -> (s: u64) {
        8 + (self.data.len() as u64)
    }
}

#[derive(Debug, Clone, PartialEq, Eq)]
pub enum MetaBox {
    Mdir { ilst: Option<IlstBox> },
    Unknown { hdlr: HdlrBox, data: Vec<RawChildBox> },
}

impl MetaBox {
    pub fn get_type(&self) -> (t: BoxType)
        ensures
            t == BoxType::MetaBox,
    {
        BoxType::MetaBox
    }

    pub fn get_size(&self) -> (s: u64)
        requires
            self.size_spec() <= u64::MAX,
        ensures
            s as int == self.size_spec(),
    {
        match self {
            MetaBox::Mdir { ilst } => {
                match ilst {
                    Some(b) => {
                        proof {
                            b.size_spec_bounds();
                        }
                        12 + 33 + b.box_size()
                    },
                    None => 12 + 33,
                }
            },
            MetaBox::Unknown { hdlr, data } => {
                proof {
                    hdlr.size_spec_bounds();
                    lemma_sum_box_sizes_nonneg(data@);
                }
                let mut sum: u64 = 12 + hdlr.box_size();
                let mut i: usize = 0;
                let n = data.len();
                while i < n
                    invariant
                        i <= n,
                        n == data@.len(),
                        self.size_spec() <= u64::MAX,
                        self matches MetaBox::Unknown { hdlr: h2, data: d2 } && h2 == hdlr && d2
                            == data,
                        self.size_spec() == 12 + hdlr.size_spec() + sum_box_sizes(data@),
                        hdlr.size_spec() >= 0,
                        sum as int == 12 + hdlr.size_spec() + sum_box_sizes(data@.take(i as int)),
                    decreases n - i,
                {
                    proof {
                        lemma_sum_box_sizes_take_step(data@, i as int);
                        lemma_sum_box_sizes_take_le(data@, i as int + 1);
                        data@[i as int].size_spec_bounds();
                    }
                    sum = sum + (8 + (data[i].data.len() as u64));
                    i = i + 1;
                }
                proof {
                    assert(data@.take(n as int) =~= data@);
                }
                sum
            },
        }
    }
}

impl Mp4Box for MetaBox {
    open spec fn size_spec(&self) -> int {
        match self {
            MetaBox::Mdir { ilst } => 12 + 33 + (match ilst {
                Some(b) => b.size_spec(),
                None => 0int,
            }),
            MetaBox::Unknown { hdlr, data } => 12 + hdlr.size_spec() + sum_box_sizes(data@),
        }
    }

    proof fn size_spec_bounds(&self) {
        match self {
            MetaBox::Mdir { ilst } => {
                match ilst {
                    Some(b) => b.size_spec_bounds(),
                    None => {},
                }
            },
            MetaBox::Unknown { hdlr, data } => {
                hdlr.size_spec_bounds();
                lemma_sum_box_sizes_nonneg(data@);
            },
        }
    }

    fn box_type(&self) -> (t: BoxType) {
        self.get_type()
    }

    fn box_size(&self) -> (s: u64) {
        self.get_size()
    }
}

impl ReadBox for MetaBox {
    /// Finds the handler in a first pass, then decodes the children
    /// according to it in a second pass over the same bytes.
    fn read_box(data: &[u8], pos: &mut u64, size: u64) -> (r: Result<Self, Error>)
        ensures
            r is Ok ==> *final(pos) == *old(pos) - 8 + size,
    {
        let start = box_start(*pos);
        if size > u64::MAX - start {
            return Err(Error::MalformedContainer("box end does not fit in 64 bits"));
        }
        let end: u64 = start + size;
        let extended_header = match read_u32(data, pos) {
            Ok(v) => v,
            Err(e) => {
                return Err(e);
            },
        };
        if extended_header != 0 {
            let possible_hdlr = match read_u32(data, pos) {
                Ok(v) => v,
                Err(e) => {
                    return Err(e);
                },
            };
            if possible_hdlr == 0x68646c72 {
                // a plain (non-full) meta box: the first child starts at once
                *pos = *pos - 8;
            } else {
                return Err(Error::MalformedContainer("meta box version unsupported"));
            }
        }
        let content_start: u64 = *pos;
        let mut hdlr: Option<HdlrBox> = None;
        while *pos < end
            invariant
                *pos >= 8,
                end <= u64::MAX,
            decreases end - *pos,
        {
            let header = match BoxHeader::read(data, pos) {
                Ok(h) => h,
                Err(e) => {
                    return Err(e);
                },
            };
            let cend = match child_end(*pos, header.size, end) {
                Ok(v) => v,
                Err(e) => {
                    return Err(e);
                },
            };
            match header.name {
                BoxType::HdlrBox => {
                    let b = match HdlrBox::read_box(data, pos, header.size) {
                        Ok(b) => b,
                        Err(e) => {
                            return Err(e);
                        },
                    };
                    hdlr = Some(b);
                },
                _ => {
                    *pos = cend;
                },
            }
        }
        let hdlr = match hdlr {
            Some(b) => b,
            None => {
                return Err(Error::MissingRequiredBox(BoxType::HdlrBox));
            },
        };
        *pos = content_start;
        if hdlr.handler_type.to_u32() == 0x6d646972 {
            let mut ilst: Option<IlstBox> = None;
            while *pos < end
                invariant
                    *pos >= 8,
                    end <= u64::MAX,
                decreases end - *pos,
            {
                let header = match BoxHeader::read(data, pos) {
                    Ok(h) => h,
                    Err(e) => {
                        return Err(e);
                    },
                };
                let cend = match child_end(*pos, header.size, end) {
                    Ok(v) => v,
                    Err(e) => {
                        return Err(e);
                    },
                };
                match header.name {
                    BoxType::IlstBox => {
                        let b = match IlstBox::read_box(data, pos, header.size) {
                            Ok(b) => b,
                            Err(e) => {
                                return Err(e);
                            },
                        };
                        ilst = Some(b);
                    },
                    _ => {
                        *pos = cend;
                    },
                }
            }
            match seek_end(pos, start, size) {
                Ok(()) => {},
                Err(e) => {
                    return Err(e);
                },
            }
            Ok(MetaBox::Mdir { ilst })
        } else {
            let mut children: Vec<RawChildBox> = Vec::new();
            while *pos < end
                invariant
                    *pos >= 8,
                    end <= u64::MAX,
                decreases end - *pos,
            {
                let header = match BoxHeader::read(data, pos) {
                    Ok(h) => h,
                    Err(e) => {
                        return Err(e);
                    },
                };
                let cend = match child_end(*pos, header.size, end) {
                    Ok(v) => v,
                    Err(e) => {
                        return Err(e);
                    },
                };
                if let BoxType::HdlrBox = header.name {
                    *pos = cend;
                } else {
                    let body = match copy_bytes(data, *pos, cend - *pos) {
                        Ok(v) => v,
                        Err(e) => {
                            return Err(e);
                        },
                    };
                    children.push(RawChildBox { name: header.name, data: body });
                    *pos = cend;
                }
            }
            match seek_end(pos, start, size) {
                Ok(()) => {},
                Err(e) => {
                    return Err(e);
                },
            }
            Ok(MetaBox::Unknown { hdlr, data: children })
        }
    }
}

} // verus!
