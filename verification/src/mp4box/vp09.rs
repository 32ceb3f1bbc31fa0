//! `vp09` — the VP9 visual sample entry: fixed presentation fields
//! followed by the codec configuration record.  A codec parameter box,
//! decoded as an external collaborator.

use crate::byteio::{has_bytes, read_u16};
use crate::error::Error;
use crate::mp4box::vpcc::VpccBox;
use crate::mp4box::{
    box_start, child_end, read_box_header_ext, seek_end, BoxHeader, BoxType, Mp4Box, RawBox,
    ReadBox,
};
use vstd::prelude::*;

verus! {

#[derive(Debug, Clone, PartialEq, Eq)]
pub struct Vp09Box {
    pub version: u8,
    pub flags: u32,
    pub start_code: u16,
    pub data_reference_index: u16,
    pub reserved0: [u8; 16],
    pub width: u16,
    pub height: u16,
    pub horizresolution: [u16; 2],
    pub vertresolution: [u16; 2],
    pub reserved1: [u8; 4],
    pub frame_count: u16,
    pub compressorname: [u8; 32],
    pub depth: u16,
    pub end_code: u16,
    pub vpcc: RawBox<VpccBox>,
}

impl Vp09Box {
    pub fn get_type(&self) -> (t: BoxType)
        ensures
            t == BoxType::Vp09Box,
    {
        BoxType::Vp09Box
    }

    pub fn get_size(&self) -> (s: u64)
        ensures
            s as int == self.size_spec(),
    {
        0x6A
    }
}

impl Mp4Box for Vp09Box {
    open spec fn size_spec(&self) -> int {
        0x6A
    }

    proof fn size_spec_bounds(&self) {
    }

    fn box_type(&self) -> (t: BoxType) {
        self.get_type()
    }

    fn box_size(&self) -> (s: u64) {
        self.get_size()
    }
}

impl ReadBox for Vp09Box {
    fn read_box(data: &[u8], pos: &mut u64, size: u64) -> (r: Result<Self, Error>)
        ensures
            r is Ok ==> *final(pos) == *old(pos) - 8 + size,
    {
        let start = box_start(*pos);
        if size > u64::MAX - start {
            return Err(Error::MalformedContainer("box end does not fit in 64 bits"));
        }
        let end: u64 = start + size;
        let (version, flags) = match read_box_header_ext(data, pos) {
            Ok(vf) => vf,
            Err(e) => {
                return Err(e);
            },
        };
        let start_code = match read_u16(data, pos) {
            Ok(v) => v,
            Err(e) => {
                return Err(e);
            },
        };
        let data_reference_index = match read_u16(data, pos) {
            Ok(v) => v,
            Err(e) => {
                return Err(e);
            },
        };
        if !has_bytes(data, *pos, 16) {
            return Err(Error::Io);
        }
        let i0 = *pos as usize;
        let reserved0: [u8; 16] = [
            data[i0],
            data[i0 + 1],
            data[i0 + 2],
            data[i0 + 3],
            data[i0 + 4],
            data[i0 + 5],
            data[i0 + 6],
            data[i0 + 7],
            data[i0 + 8],
            data[i0 + 9],
            data[i0 + 10],
            data[i0 + 11],
            data[i0 + 12],
            data[i0 + 13],
            data[i0 + 14],
            data[i0 + 15],
        ];
        *pos = *pos + 16;
        let width = match read_u16(data, pos) {
            Ok(v) => v,
            Err(e) => {
                return Err(e);
            },
        };
        let height = match read_u16(data, pos) {
            Ok(v) => v,
            Err(e) => {
                return Err(e);
            },
        };
        let hr0 = match read_u16(data, pos) {
            Ok(v) => v,
            Err(e) => {
                return Err(e);
            },
        };
        let hr1 = match read_u16(data, pos) {
            Ok(v) => v,
            Err(e) => {
                return Err(e);
            },
        };
        let vr0 = match read_u16(data, pos) {
            Ok(v) => v,
            Err(e) => {
                return Err(e);
            },
        };
        let vr1 = match read_u16(data, pos) {
            Ok(v) => v,
            Err(e) => {
                return Err(e);
            },
        };
        if !has_bytes(data, *pos, 4) {
            return Err(Error::Io);
        }
        let i1 = *pos as usize;
        let reserved1: [u8; 4] = [data[i1], data[i1 + 1], data[i1 + 2], data[i1 + 3]];
        *pos = *pos + 4;
        let frame_count = match read_u16(data, pos) {
            Ok(v) => v,
            Err(e) => {
                return Err(e);
            },
        };
        if !has_bytes(data, *pos, 32) {
            return Err(Error::Io);
        }
        let i2 = *pos as usize;
        let compressorname: [u8; 32] = [
            data[i2],
            data[i2 + 1],
            data[i2 + 2],
            data[i2 + 3],
            data[i2 + 4],
            data[i2 + 5],
            data[i2 + 6],
            data[i2 + 7],
            data[i2 + 8],
            data[i2 + 9],
            data[i2 + 10],
            data[i2 + 11],
            data[i2 + 12],
            data[i2 + 13],
            data[i2 + 14],
            data[i2 + 15],
            data[i2 + 16],
            data[i2 + 17],
            data[i2 + 18],
            data[i2 + 19],
            data[i2 + 20],
            data[i2 + 21],
            data[i2 + 22],
            data[i2 + 23],
            data[i2 + 24],
            data[i2 + 25],
            data[i2 + 26],
            data[i2 + 27],
            data[i2 + 28],
            data[i2 + 29],
            data[i2 + 30],
            data[i2 + 31],
        ];
        *pos = *pos + 32;
        let depth = match read_u16(data, pos) {
            Ok(v) => v,
            Err(e) => {
                return Err(e);
            },
        };
        let end_code = match read_u16(data, pos) {
            Ok(v) => v,
            Err(e) => {
                return Err(e);
            },
        };
        let header = match BoxHeader::read(data, pos) {
            Ok(h) => h,
            Err(e) => {
                return Err(e);
            },
        };
        match child_end(*pos, header.size, end) {
            Ok(_) => {},
            Err(e) => {
                return Err(e);
            },
        }
        let vpcc = match RawBox::<VpccBox>::read_box(data, pos, header.size) {
            Ok(b) => b,
            Err(e) => {
                return Err(e);
            },
        };
        match seek_end(pos, start, size) {
            Ok(()) => {},
            Err(e) => {
                return Err(e);
            },
        }
        Ok(
            Vp09Box {
                version,
                flags,
                start_code,
                data_reference_index,
                reserved0,
                width,
                height,
                horizresolution: [hr0, hr1],
                vertresolution: [vr0, vr1],
                reserved1,
                frame_count,
                compressorname,
                depth,
                end_code,
                vpcc,
            },
        )
    }
}

} // verus!
