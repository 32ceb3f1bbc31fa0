//! `mfhd` — the movie-fragment header box: the fragment's sequence number.

use crate::byteio::{be24, be32, read_u32};
use crate::error::Error;
use crate::mp4box::{box_start, read_box_header_ext, seek_end, BoxType, Mp4Box, ReadBox};
use vstd::prelude::*;

verus! {

#[derive(Debug, Clone, Copy, PartialEq, Eq, Structural)]
pub struct MfhdBox {
    pub version: u8,
    pub flags: u32,
    pub sequence_number: u32,
}

impl MfhdBox {
    pub fn get_type(&self) -> (t: BoxType)
        ensures
            t == BoxType::MfhdBox,
    {
        BoxType::MfhdBox
    }

    pub fn get_size(&self) -> (s: u64)
        ensures
            s as int == self.size_spec(),
    {
        8 + 4 + 4
    }
}

impl Mp4Box for MfhdBox {
    open spec fn size_spec(&self) -> int {
        8int + 4 + 4
    }

    proof fn size_spec_bounds(&self) {
    }

    fn box_type(&self) -> (t: BoxType) {
        self.get_type()
    }

    fn box_size(&self) -> (s: u64) {
        self.get_size()
    }
}

impl ReadBox for MfhdBox {
    fn read_box(data: &[u8], pos: &mut u64, size: u64) -> (r: Result<Self, Error>)
        ensures
            match r {
                Ok(b) => {
                    &&& *old(pos) + 8 <= data@.len()
                    &&& *old(pos) - 8 + size <= u64::MAX
                    &&& b.version == data@[*old(pos) as int]
                    &&& b.flags as int == be24(data@, *old(pos) + 1)
                    &&& b.sequence_number as int == be32(data@, *old(pos) + 4)
                    &&& *final(pos) == *old(pos) - 8 + size
                },
                Err(e) => {
                    &&& (*old(pos) + 8 > data@.len() || *old(pos) - 8 + size > u64::MAX)
                    &&& (e is Io || e is MalformedContainer)
                },
            },
    {
        let start = box_start(*pos);
        let (version, flags) = match read_box_header_ext(data, pos) {
            Ok(vf) => vf,
            Err(e) => {
                return Err(e);
            },
        };
        let sequence_number = match read_u32(data, pos) {
            Ok(v) => v,
            Err(e) => {
                return Err(e);
            },
        };
        match seek_end(pos, start, size) {
            Ok(()) => {},
            Err(e) => {
                return Err(e);
            },
        }
        Ok(MfhdBox { version, flags, sequence_number })
    }
}

} // verus!
