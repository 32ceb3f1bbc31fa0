//! `hvc1` / `hev1` — the HEVC visual sample entry and the leading fields of
//! its `hvcC` configuration record.  Codec parameter boxes, decoded as
//! external collaborators; the record's tail is kept only as raw bytes.

use crate::byteio::{read_u16, read_u32, read_u64, read_u8, skip_bytes};
use crate::error::Error;
use crate::mp4box::{
    box_start, child_end, seek_end, BoxHeader, BoxType, Mp4Box, RawBox, ReadBox,
};
use crate::types::FixedPointU16;
use vstd::prelude::*;

verus! {

/// The hevc sample entry, used for both the `hvc1` and `hev1` FourCCs.
#[derive(Debug, Clone, PartialEq, Eq)]
pub struct HevcBox {
    pub data_reference_index: u16,
    pub width: u16,
    pub height: u16,
    pub horizresolution: FixedPointU16,
    pub vertresolution: FixedPointU16,
    pub frame_count: u16,
    pub depth: u16,
    pub hvcc: RawBox<HevcDecoderConfigurationRecord>,
}

impl HevcBox {
    pub fn get_type(&self) -> (t: BoxType)
        ensures
            t == BoxType::Hvc1Box,
    {
        BoxType::Hvc1Box
    }
}

impl Mp4Box for HevcBox {
    open spec fn size_spec(&self) -> int {
        8 + 8 + 70 + 8 + 23 + (self.hvcc.raw@.len() as int)
    }

    proof fn size_spec_bounds(&self) {
    }

    fn box_type(&self) -> (t: BoxType) {
        self.get_type()
    }

    fn box_size(&self) -> (s: u64) {
        8 + 8 + 70 + 8 + 23 + (self.hvcc.raw.len() as u64)
    }
}

impl ReadBox for HevcBox {
    /// Decodes the fixed presentation fields, then scans the children for
    /// the mandatory `hvcC` record.
    fn read_box(data: &[u8], pos: &mut u64, size: u64) -> (r: Result<Self, Error>)
        ensures
            r is Ok ==> *final(pos) == *old(pos) - 8 + size,
    {
        let start = box_start(*pos);
        if size > u64::MAX - start {
            return Err(Error::MalformedContainer("box end does not fit in 64 bits"));
        }
        let end: u64 = start + size;
        match read_u32(data, pos) {
            Ok(_) => {},
            Err(e) => {
                return Err(e);
            },
        }
        match read_u16(data, pos) {
            Ok(_) => {},
            Err(e) => {
                return Err(e);
            },
        }
        let data_reference_index = match read_u16(data, pos) {
            Ok(v) => v,
            Err(e) => {
                return Err(e);
            },
        };
        match read_u32(data, pos) {
            Ok(_) => {},
            Err(e) => {
                return Err(e);
            },
        }
        match read_u64(data, pos) {
            Ok(_) => {},
            Err(e) => {
                return Err(e);
            },
        }
        match read_u32(data, pos) {
            Ok(_) => {},
            Err(e) => {
                return Err(e);
            },
        }
        let width = match read_u16(data, pos) {
            Ok(v) => v,
            Err(e) => {
                return Err(e);
            },
        };
        let height = match read_u16(data, pos) {
            Ok(v) => v,
            Err(e) => {
                return Err(e);
            },
        };
        let horizresolution = match read_u32(data, pos) {
            Ok(v) => FixedPointU16::new_raw(v),
            Err(e) => {
                return Err(e);
            },
        };
        let vertresolution = match read_u32(data, pos) {
            Ok(v) => FixedPointU16::new_raw(v),
            Err(e) => {
                return Err(e);
            },
        };
        match read_u32(data, pos) {
            Ok(_) => {},
            Err(e) => {
                return Err(e);
            },
        }
        let frame_count = match read_u16(data, pos) {
            Ok(v) => v,
            Err(e) => {
                return Err(e);
            },
        };
        match skip_bytes(data, pos, 32) {
            Ok(()) => {},
            Err(e) => {
                return Err(e);
            },
        }
        let depth = match read_u16(data, pos) {
            Ok(v) => v,
            Err(e) => {
                return Err(e);
            },
        };
        match read_u16(data, pos) {
            Ok(_) => {},
            Err(e) => {
                return Err(e);
            },
        }
        while *pos < end
            invariant
                *pos >= 8,
                end <= u64::MAX,
                end == start + size,
                start == *old(pos) - 8,
            decreases end - *pos,
        {
            let header = match BoxHeader::read(data, pos) {
                Ok(h) => h,
                Err(e) => {
                    return Err(e);
                },
            };
            let cend = match child_end(*pos, header.size, end) {
                Ok(v) => v,
                Err(e) => {
                    return Err(e);
                },
            };
            if let BoxType::HvcCBox = header.name {
                let hvcc = match RawBox::<HevcDecoderConfigurationRecord>::read_box(
                    data,
                    pos,
                    header.size,
                ) {
                    Ok(b) => b,
                    Err(e) => {
                        return Err(e);
                    },
                };
                match seek_end(pos, start, size) {
                    Ok(()) => {},
                    Err(e) => {
                        return Err(e);
                    },
                }
                return Ok(
                    HevcBox {
                        data_reference_index,
                        width,
                        height,
                        horizresolution,
                        vertresolution,
                        frame_count,
                        depth,
                        hvcc,
                    },
                );
            } else {
                *pos = cend;
            }
        }
        Err(Error::MalformedContainer("hvcc not found"))
    }
}

/// The leading fixed fields of an `hvcC` record; the arrays that follow
/// stay undecoded in the surrounding raw bytes.
#[derive(Debug, Clone, Copy, PartialEq, Eq, Structural)]
pub struct HevcDecoderConfigurationRecord {
    pub configuration_version: u8,
    pub general_profile_space: u8,
    pub general_tier_flag: bool,
    pub general_profile_idc: u8,
    pub general_profile_compatibility_flags: u32,
    pub general_constraint_indicator_flag: u64,
    pub general_level_idc: u8,
}

impl ReadBox for HevcDecoderConfigurationRecord {
    fn read_box(data: &[u8], pos: &mut u64, size: u64) -> (r: Result<Self, Error>)
        ensures
            r is Ok ==> *final(pos) == *old(pos) - 8 + size,
    {
        let start = box_start(*pos);
        let configuration_version = match read_u8(data, pos) {
            Ok(v) => v,
            Err(e) => {
                return Err(e);
            },
        };
        let packed = match read_u8(data, pos) {
            Ok(v) => v,
            Err(e) => {
                return Err(e);
            },
        };
        let general_profile_space: u8 = packed / 0x40;
        let general_tier_flag: bool = (packed / 0x20) % 2 == 1;
        let general_profile_idc: u8 = packed % 0x20;
        let general_profile_compatibility_flags = match read_u32(data, pos) {
            Ok(v) => v,
            Err(e) => {
                return Err(e);
            },
        };
        let hi = match read_u16(data, pos) {
            Ok(v) => v,
            Err(e) => {
                return Err(e);
            },
        };
        let lo = match read_u32(data, pos) {
            Ok(v) => v,
            Err(e) => {
                return Err(e);
            },
        };
        let general_constraint_indicator_flag: u64 = (hi as u64) * 0x100000000 + (lo as u64);
        let general_level_idc = match read_u8(data, pos) {
            Ok(v) => v,
            Err(e) => {
                return Err(e);
            },
        };
        match seek_end(pos, start, size) {
            Ok(()) => {},
            Err(e) => {
                return Err(e);
            },
        }
        Ok(
            HevcDecoderConfigurationRecord {
                configuration_version,
                general_profile_space,
                general_tier_flag,
                general_profile_idc,
                general_profile_compatibility_flags,
                general_constraint_indicator_flag,
                general_level_idc,
            },
        )
    }
}

} // verus!
