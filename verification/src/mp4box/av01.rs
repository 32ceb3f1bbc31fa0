//! `av01` — the AV1 visual sample entry and its `av1C` configuration
//! record.  Codec parameter boxes, decoded as external collaborators.

use crate::byteio::{copy_bytes, read_u16, read_u32, read_u64, read_u8, skip_bytes};
use crate::error::Error;
use crate::mp4box::{
    box_start, child_end, seek_end, BoxHeader, BoxType, Mp4Box, RawBox, ReadBox,
};
use crate::types::FixedPointU16;
use vstd::prelude::*;

verus! {

#[derive(Debug, Clone, PartialEq, Eq)]
pub struct Av01Box {
    pub data_reference_index: u16,
    pub width: u16,
    pub height: u16,
    pub horizresolution: FixedPointU16,
    pub vertresolution: FixedPointU16,
    pub frame_count: u16,
    pub depth: u16,
    pub av1c: RawBox<Av1CBox>,
}

impl Av01Box {
    pub fn get_type(&self) -> (t: BoxType)
        ensures
            t == BoxType::Av01Box,
    {
        BoxType::Av01Box
    }

    pub fn get_size(&self) -> (s: u64)
        requires
            self.size_spec() <= u64::MAX,
        ensures
            s as int == self.size_spec(),
    {
        proof {
            self.av1c.contents.size_spec_bounds();
        }
        8 + 8 + 70 + self.av1c.contents.get_size()
    }
}

impl Mp4Box for Av01Box {
    open spec fn size_spec(&self) -> int {
        8 + 8 + 70 + self.av1c.contents.size_spec()
    }

    proof fn size_spec_bounds(&self) {
        self.av1c.contents.size_spec_bounds();
    }

    fn box_type(&self) -> (t: BoxType) {
        self.get_type()
    }

    fn box_size(&self) -> (s: u64) {
        self.get_size()
    }
}

impl ReadBox for Av01Box {
    fn read_box(data: &[u8], pos: &mut u64, size: u64) -> (r: Result<Self, Error>)
        ensures
            r is Ok ==> *final(pos) == *old(pos) - 8 + size,
    {
        let start = box_start(*pos);
        if size > u64::MAX - start {
            return Err(Error::MalformedContainer("box end does not fit in 64 bits"));
        }
        let end: u64 = start + size;
        match read_u32(data, pos) {
            Ok(_) => {},
            Err(e) => {
                return Err(e);
            },
        }
        match read_u16(data, pos) {
            Ok(_) => {},
            Err(e) => {
                return Err(e);
            },
        }
        let data_reference_index = match read_u16(data, pos) {
            Ok(v) => v,
            Err(e) => {
                return Err(e);
            },
        };
        match read_u32(data, pos) {
            Ok(_) => {},
            Err(e) => {
                return Err(e);
            },
        }
        match read_u64(data, pos) {
            Ok(_) => {},
            Err(e) => {
                return Err(e);
            },
        }
        match read_u32(data, pos) {
            Ok(_) => {},
            Err(e) => {
                return Err(e);
            },
        }
        let width = match read_u16(data, pos) {
            Ok(v) => v,
            Err(e) => {
                return Err(e);
            },
        };
        let height = match read_u16(data, pos) {
            Ok(v) => v,
            Err(e) => {
                return Err(e);
            },
        };
        let horizresolution = match read_u32(data, pos) {
            Ok(v) => FixedPointU16::new_raw(v),
            Err(e) => {
                return Err(e);
            },
        };
        let vertresolution = match read_u32(data, pos) {
            Ok(v) => FixedPointU16::new_raw(v),
            Err(e) => {
                return Err(e);
            },
        };
        match read_u32(data, pos) {
            Ok(_) => {},
            Err(e) => {
                return Err(e);
            },
        }
        let frame_count = match read_u16(data, pos) {
            Ok(v) => v,
            Err(e) => {
                return Err(e);
            },
        };
        match skip_bytes(data, pos, 32) {
            Ok(()) => {},
            Err(e) => {
                return Err(e);
            },
        }
        let depth = match read_u16(data, pos) {
            Ok(v) => v,
            Err(e) => {
                return Err(e);
            },
        };
        match read_u16(data, pos) {
            Ok(_) => {},
            Err(e) => {
                return Err(e);
            },
        }
        let header = match BoxHeader::read(data, pos) {
            Ok(h) => h,
            Err(e) => {
                return Err(e);
            },
        };
        match child_end(*pos, header.size, end) {
            Ok(_) => {},
            Err(e) => {
                return Err(e);
            },
        }
        if let BoxType::Av1CBox = header.name {
            let av1c = match RawBox::<Av1CBox>::read_box(data, pos, header.size) {
                Ok(b) => b,
                Err(e) => {
                    return Err(e);
                },
            };
            match seek_end(pos, start, size) {
                Ok(()) => {},
                Err(e) => {
                    return Err(e);
                },
            }
            Ok(
                Av01Box {
                    data_reference_index,
                    width,
                    height,
                    horizresolution,
                    vertresolution,
                    frame_count,
                    depth,
                    av1c,
                },
            )
        } else {
            Err(Error::MalformedContainer("av1c not found"))
        }
    }
}

/// The decoded `av1C` record: profile, level, tier and bit depth plus the
/// undecoded configuration OBUs.
#[derive(Debug, Clone, PartialEq, Eq)]
pub struct Av1CBox {
    pub profile: u8,
    pub level: u8,
    pub tier: u8,
    pub bit_depth: u8,
    pub monochrome: bool,
    pub chroma_subsampling_x: u8,
    pub chroma_subsampling_y: u8,
    pub chroma_sample_position: u8,
    pub initial_presentation_delay_present: bool,
    pub initial_presentation_delay_minus_one: u8,
    pub config_obus: Vec<u8>,
}

impl Av1CBox {
    pub fn get_type(&self) -> (t: BoxType)
        ensures
            t == BoxType::Av1CBox,
    {
        BoxType::Av1CBox
    }

    pub fn get_size(&self) -> (s: u64)
        requires
            self.size_spec() <= u64::MAX,
        ensures
            s as int == self.size_spec(),
    {
        8 + 4 + (self.config_obus.len() as u64)
    }
}

impl Mp4Box for Av1CBox {
    open spec fn size_spec(&self) -> int {
        8 + 4 + (self.config_obus@.len() as int)
    }

    proof fn size_spec_bounds(&self) {
    }

    fn box_type(&self) -> (t: BoxType) {
        self.get_type()
    }

    fn box_size(&self) -> (s: u64) {
        self.get_size()
    }
}

impl ReadBox for Av1CBox {
    fn read_box(data: &[u8], pos: &mut u64, size: u64) -> (r: Result<Self, Error>)
        ensures
            r is Ok ==> *final(pos) == *old(pos) - 8 + size,
    {
        let marker_byte = match read_u8(data, pos) {
            Ok(v) => v,
            Err(e) => {
                return Err(e);
            },
        };
        if marker_byte / 0x80 != 1 {
            return Err(Error::MalformedContainer("missing av1C marker bit"));
        }
        if marker_byte % 0x80 != 0x01 {
            return Err(Error::MalformedContainer("missing av1C marker bit"));
        }
        let profile_byte = match read_u8(data, pos) {
            Ok(v) => v,
            Err(e) => {
                return Err(e);
            },
        };
        let profile: u8 = profile_byte / 0x20;
        let level: u8 = profile_byte % 0x20;
        let flags_byte = match read_u8(data, pos) {
            Ok(v) => v,
            Err(e) => {
                return Err(e);
            },
        };
        let tier: u8 = (flags_byte / 0x80) % 2;
        let depth_bits: u8 = (flags_byte / 0x20) % 4;
        let bit_depth: u8 = if depth_bits == 3 {
            12
        } else if depth_bits == 2 {
            10
        } else {
            8
        };
        let monochrome: bool = (flags_byte / 0x10) % 2 == 1;
        let chroma_subsampling_x: u8 = (flags_byte / 0x08) % 2;
        let chroma_subsampling_y: u8 = (flags_byte / 0x04) % 2;
        let chroma_sample_position: u8 = flags_byte % 4;
        let delay_byte = match read_u8(data, pos) {
            Ok(v) => v,
            Err(e) => {
                return Err(e);
            },
        };
        let initial_presentation_delay_present: bool = (delay_byte / 0x10) % 2 == 1;
        let initial_presentation_delay_minus_one: u8 = if initial_presentation_delay_present {
            delay_byte % 0x10
        } else {
            0
        };
        if size < 12 {
            return Err(Error::MalformedContainer("invalid box size"));
        }
        let config_obus = match copy_bytes(data, *pos, size - 12) {
            Ok(v) => v,
            Err(e) => {
                return Err(e);
            },
        };
        *pos = *pos + (size - 12);
        Ok(
            Av1CBox {
                profile,
                level,
                tier,
                bit_depth,
                monochrome,
                chroma_subsampling_x,
                chroma_subsampling_y,
                chroma_sample_position,
                initial_presentation_delay_present,
                initial_presentation_delay_minus_one,
                config_obus,
            },
        )
    }
}

} // verus!
