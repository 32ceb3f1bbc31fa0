//! `vmhd` — the video media header box: graphics mode and an RGB op-color.

use crate::byteio::{be16, be24, read_u16};
use crate::error::Error;
use crate::mp4box::{box_start, read_box_header_ext, seek_end, BoxType, Mp4Box, ReadBox};
use vstd::prelude::*;

verus! {

#[derive(Debug, Clone, Copy, PartialEq, Eq, Structural)]
pub struct RgbColor {
    pub red: u16,
    pub green: u16,
    pub blue: u16,
}

#[derive(Debug, Clone, Copy, PartialEq, Eq, Structural)]
pub struct VmhdBox {
    pub version: u8,
    pub flags: u32,
    pub graphics_mode: u16,
    pub op_color: RgbColor,
}

impl VmhdBox {
    pub fn get_type(&self) -> (t: BoxType)
        ensures
            t == BoxType::VmhdBox,
    {
        BoxType::VmhdBox
    }

    pub fn get_size(&self) -> (s: u64)
        ensures
            s as int == self.size_spec(),
    {
        8 + 4 + 8
    }
}

impl Mp4Box for VmhdBox {
    open spec fn size_spec(&self) -> int {
        8int + 4 + 8
    }

    proof fn size_spec_bounds(&self) {
    }

    fn box_type(&self) -> (t: BoxType) {
        self.get_type()
    }

    fn box_size(&self) -> (s: u64) {
        self.get_size()
    }
}

impl ReadBox for VmhdBox {
    fn read_box(data: &[u8], pos: &mut u64, size: u64) -> (r: Result<Self, Error>)
        ensures
            match r {
                Ok(b) => {
                    &&& *old(pos) + 12 <= data@.len()
                    &&& *old(pos) - 8 + size <= u64::MAX
                    &&& b.version == data@[*old(pos) as int]
                    &&& b.flags as int == be24(data@, *old(pos) + 1)
                    &&& b.graphics_mode as int == be16(data@, *old(pos) + 4)
                    &&& b.op_color.red as int == be16(data@, *old(pos) + 6)
                    &&& b.op_color.green as int == be16(data@, *old(pos) + 8)
                    &&& b.op_color.blue as int == be16(data@, *old(pos) + 10)
                    &&& *final(pos) == *old(pos) - 8 + size
                },
                Err(e) => {
                    &&& (*old(pos) + 12 > data@.len() || *old(pos) - 8 + size > u64::MAX)
                    &&& (e is Io || e is MalformedContainer)
                },
            },
    {
        let start = box_start(*pos);
        let (version, flags) = match read_box_header_ext(data, pos) {
            Ok(vf) => vf,
            Err(e) => {
                return Err(e);
            },
        };
        let graphics_mode = match read_u16(data, pos) {
            Ok(v) => v,
            Err(e) => {
                return Err(e);
            },
        };
        let red = match read_u16(data, pos) {
            Ok(v) => v,
            Err(e) => {
                return Err(e);
            },
        };
        let green = match read_u16(data, pos) {
            Ok(v) => v,
            Err(e) => {
                return Err(e);
            },
        };
        let blue = match read_u16(data, pos) {
            Ok(v) => v,
            Err(e) => {
                return Err(e);
            },
        };
        match seek_end(pos, start, size) {
            Ok(()) => {},
            Err(e) => {
                return Err(e);
            },
        }
        Ok(VmhdBox { version, flags, graphics_mode, op_color: RgbColor { red, green, blue } })
    }
}

} // verus!
