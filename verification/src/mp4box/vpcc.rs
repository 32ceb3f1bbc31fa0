//! `vpcC` — the VP8/VP9 codec configuration record.  A codec parameter
//! box: decoded only far enough to expose profile, level and bit depth.

use crate::byteio::{read_u16, read_u8};
use crate::error::Error;
use crate::mp4box::{box_start, read_box_header_ext, seek_end, BoxType, Mp4Box, ReadBox};
use vstd::prelude::*;

verus! {

#[derive(Debug, Clone, Copy, PartialEq, Eq, Structural)]
pub struct VpccBox {
    pub version: u8,
    pub flags: u32,
    pub profile: u8,
    pub level: u8,
    pub bit_depth: u8,
    pub chroma_subsampling: u8,
    pub video_full_range_flag: bool,
    pub color_primaries: u8,
    pub transfer_characteristics: u8,
    pub matrix_coefficients: u8,
    pub codec_initialization_data_size: u16,
}

pub const VPCC_DEFAULT_VERSION: u8 = 1;

pub const VPCC_DEFAULT_BIT_DEPTH: u8 = 8;

impl VpccBox {
    pub fn get_type(&self) -> (t: BoxType)
        ensures
            t == BoxType::VpccBox,
    {
        BoxType::VpccBox
    }

    pub fn get_size(&self) -> (s: u64)
        ensures
            s as int == self.size_spec(),
    {
        8 + 4 + 8
    }
}

impl Mp4Box for VpccBox {
    open spec fn size_spec(&self) -> int {
        8int + 4 + 8
    }

    proof fn size_spec_bounds(&self) {
    }

    fn box_type(&self) -> (t: BoxType) {
        self.get_type()
    }

    fn box_size(&self) -> (s: u64) {
        self.get_size()
    }
}

impl ReadBox for VpccBox {
    fn read_box(data: &[u8], pos: &mut u64, size: u64) -> (r: Result<Self, Error>)
        ensures
            match r {
                Ok(b) => {
                    &&& b.version == data@[*old(pos) as int]
                    &&& b.profile == data@[*old(pos) + 4]
                    &&& b.level == data@[*old(pos) + 5]
                    &&& b.bit_depth as int == (data@[*old(pos) + 6] as int) / 16
                    &&& *final(pos) == *old(pos) - 8 + size
                },
                Err(e) => e is Io || e is MalformedContainer,
            },
    {
        let start = box_start(*pos);
        let (version, flags) = match read_box_header_ext(data, pos) {
            Ok(vf) => vf,
            Err(e) => {
                return Err(e);
            },
        };
        let profile = match read_u8(data, pos) {
            Ok(v) => v,
            Err(e) => {
                return Err(e);
            },
        };
        let level = match read_u8(data, pos) {
            Ok(v) => v,
            Err(e) => {
                return Err(e);
            },
        };
        let packed = match read_u8(data, pos) {
            Ok(v) => v,
            Err(e) => {
                return Err(e);
            },
        };
        let bit_depth: u8 = packed / 16;
        let chroma_subsampling: u8 = (packed / 2) % 8;
        let video_full_range_flag: bool = packed % 2 == 1;
        let transfer_characteristics = match read_u8(data, pos) {
            Ok(v) => v,
            Err(e) => {
                return Err(e);
            },
        };
        let matrix_coefficients = match read_u8(data, pos) {
            Ok(v) => v,
            Err(e) => {
                return Err(e);
            },
        };
        let codec_initialization_data_size = match read_u16(data, pos) {
            Ok(v) => v,
            Err(e) => {
                return Err(e);
            },
        };
        match seek_end(pos, start, size) {
            Ok(()) => {},
            Err(e) => {
                return Err(e);
            },
        }
        Ok(
            VpccBox {
                version,
                flags,
                profile,
                level,
                bit_depth,
                chroma_subsampling,
                video_full_range_flag,
                color_primaries: 0,
                transfer_characteristics,
                matrix_coefficients,
                codec_initialization_data_size,
            },
        )
    }
}

} // verus!
