//! `edts` — the edit container box, holding at most one edit list.

use crate::error::Error;
use crate::mp4box::elst::ElstBox;
use crate::mp4box::{box_start, child_end, seek_end, BoxHeader, BoxType, Mp4Box, ReadBox};
use vstd::prelude::*;

verus! {

#[derive(Debug, Clone, PartialEq, Eq)]
pub struct EdtsBox {
    pub elst: Option<ElstBox>,
}

impl EdtsBox {
    pub fn new() -> (b: EdtsBox)
        ensures
            b.elst is None,
    {
        EdtsBox { elst: None }
    }

    pub fn get_type(&self) -> (t: BoxType)
        ensures
            t == BoxType::EdtsBox,
    {
        BoxType::EdtsBox
    }

    pub fn get_size(&self) -> (s: u64)
        requires
            self.size_spec() <= u64::MAX,
        ensures
            s as int == self.size_spec(),
    {
        match &self.elst {
            Some(elst) => 8 + elst.get_size(),
            None => 8,
        }
    }
}

impl Mp4Box for EdtsBox {
    open spec fn size_spec(&self) -> int {
        8 + match self.elst {
            Some(elst) => elst.size_spec(),
            None => 0,
        }
    }

    proof fn size_spec_bounds(&self) {
        match self.elst {
            Some(elst) => elst.size_spec_bounds(),
            None => {},
        }
    }

    fn box_type(&self) -> (t: BoxType) {
        self.get_type()
    }

    fn box_size(&self) -> (s: u64) {
        self.get_size()
    }
}

impl ReadBox for EdtsBox {
    /// Reads the single child header and decodes an `elst` child when that
    /// is what it is; anything else is skipped.
    fn read_box(data: &[u8], pos: &mut u64, size: u64) -> (r: Result<Self, Error>)
        ensures
            r is Ok ==> *final(pos) == *old(pos) - 8 + size,
    {
        let start = box_start(*pos);
        if size > u64::MAX - start {
            return Err(Error::MalformedContainer("box end does not fit in 64 bits"));
        }
        let end: u64 = start + size;
        let mut edts = EdtsBox::new();
        let header = match BoxHeader::read(data, pos) {
            Ok(h) => h,
            Err(e) => {
                return Err(e);
            },
        };
        match child_end(*pos, header.size, end) {
            Ok(_) => {},
            Err(e) => {
                return Err(e);
            },
        }
        if let BoxType::ElstBox = header.name {
            let elst = match ElstBox::read_box(data, pos, header.size) {
                Ok(b) => b,
                Err(e) => {
                    return Err(e);
                },
            };
            edts.elst = Some(elst);
        }
        match seek_end(pos, start, size) {
            Ok(()) => {},
            Err(e) => {
                return Err(e);
            },
        }
        Ok(edts)
    }
}

} // verus!
