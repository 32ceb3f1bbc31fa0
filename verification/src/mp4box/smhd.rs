//! `smhd` — the sound media header box: the stereo balance.

use crate::byteio::{be24, read_i16, sbe16};
use crate::error::Error;
use crate::mp4box::{box_start, read_box_header_ext, seek_end, BoxType, Mp4Box, ReadBox};
use crate::types::FixedPointI8;
use vstd::prelude::*;

verus! {

#[derive(Debug, Clone, Copy, PartialEq, Eq, Structural)]
pub struct SmhdBox {
    pub version: u8,
    pub flags: u32,
    pub balance: FixedPointI8,
}

impl SmhdBox {
    pub fn get_type(&self) -> (t: BoxType)
        ensures
            t == BoxType::SmhdBox,
    {
        BoxType::SmhdBox
    }

    pub fn get_size(&self) -> (s: u64)
        ensures
            s as int == self.size_spec(),
    {
        8 + 4 + 4
    }
}

impl Mp4Box for SmhdBox {
    open spec fn size_spec(&self) -> int {
        8int + 4 + 4
    }

    proof fn size_spec_bounds(&self) {
    }

    fn box_type(&self) -> (t: BoxType) {
        self.get_type()
    }

    fn box_size(&self) -> (s: u64) {
        self.get_size()
    }
}

impl ReadBox for SmhdBox {
    fn read_box(data: &[u8], pos: &mut u64, size: u64) -> (r: Result<Self, Error>)
        ensures
            match r {
                Ok(b) => {
                    &&& *old(pos) + 6 <= data@.len()
                    &&& *old(pos) - 8 + size <= u64::MAX
                    &&& b.version == data@[*old(pos) as int]
                    &&& b.flags as int == be24(data@, *old(pos) + 1)
                    &&& b.balance.raw_spec() == sbe16(data@, *old(pos) + 4)
                    &&& *final(pos) == *old(pos) - 8 + size
                },
                Err(e) => {
                    &&& (*old(pos) + 6 > data@.len() || *old(pos) - 8 + size > u64::MAX)
                    &&& (e is Io || e is MalformedContainer)
                },
            },
    {
        let start = box_start(*pos);
        let (version, flags) = match read_box_header_ext(data, pos) {
            Ok(vf) => vf,
            Err(e) => {
                return Err(e);
            },
        };
        let raw = match read_i16(data, pos) {
            Ok(v) => v,
            Err(e) => {
                return Err(e);
            },
        };
        let balance = FixedPointI8::new_raw(raw);
        match seek_end(pos, start, size) {
            Ok(()) => {},
            Err(e) => {
                return Err(e);
            },
        }
        Ok(SmhdBox { version, flags, balance })
    }
}

} // verus!
