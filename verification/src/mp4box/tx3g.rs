//! `tx3g` — the 3GPP timed-text sample entry: justification, colors and
//! the default text box and style records.

use crate::byteio::{has_bytes, read_i16, read_i8, read_u16, read_u32, read_u8};
use crate::error::Error;
use crate::mp4box::{box_start, read_box_header_ext, seek_end, BoxType, Mp4Box, ReadBox};
use vstd::prelude::*;

verus! {

#[derive(Debug, Clone, Copy, PartialEq, Eq, Structural)]
pub struct RgbaColor {
    pub red: u8,
    pub green: u8,
    pub blue: u8,
    pub alpha: u8,
}

#[derive(Debug, Clone, Copy, PartialEq, Eq)]
pub struct Tx3gBox {
    pub data_reference_index: u16,
    pub display_flags: u32,
    pub horizontal_justification: i8,
    pub vertical_justification: i8,
    pub bg_color_rgba: RgbaColor,
    pub box_record: [i16; 4],
    pub style_record: [u8; 12],
}

impl Tx3gBox {
    pub fn get_type(&self) -> (t: BoxType)
        ensures
            t == BoxType::Tx3gBox,
    {
        BoxType::Tx3gBox
    }

    pub fn get_size(&self) -> (s: u64)
        ensures
            s as int == self.size_spec(),
    {
        8 + 6 + 32
    }
}

impl Mp4Box for Tx3gBox {
    open spec fn size_spec(&self) -> int {
        8int + 6 + 32
    }

    proof fn size_spec_bounds(&self) {
    }

    fn box_type(&self) -> (t: BoxType) {
        self.get_type()
    }

    fn box_size(&self) -> (s: u64) {
        self.get_size()
    }
}

impl ReadBox for Tx3gBox {
    fn read_box(data: &[u8], pos: &mut u64, size: u64) -> (r: Result<Self, Error>)
        ensures
            r is Ok ==> *final(pos) == *old(pos) - 8 + size,
    {
        let start = box_start(*pos);
        match read_u32(data, pos) {
            Ok(_) => {},
            Err(e) => {
                return Err(e);
            },
        }
        match read_u16(data, pos) {
            Ok(_) => {},
            Err(e) => {
                return Err(e);
            },
        }
        let data_reference_index = match read_u16(data, pos) {
            Ok(v) => v,
            Err(e) => {
                return Err(e);
            },
        };
        let display_flags = match read_u32(data, pos) {
            Ok(v) => v,
            Err(e) => {
                return Err(e);
            },
        };
        let horizontal_justification = match read_i8(data, pos) {
            Ok(v) => v,
            Err(e) => {
                return Err(e);
            },
        };
        let vertical_justification = match read_i8(data, pos) {
            Ok(v) => v,
            Err(e) => {
                return Err(e);
            },
        };
        let red = match read_u8(data, pos) {
            Ok(v) => v,
            Err(e) => {
                return Err(e);
            },
        };
        let green = match read_u8(data, pos) {
            Ok(v) => v,
            Err(e) => {
                return Err(e);
            },
        };
        let blue = match read_u8(data, pos) {
            Ok(v) => v,
            Err(e) => {
                return Err(e);
            },
        };
        let alpha = match read_u8(data, pos) {
            Ok(v) => v,
            Err(e) => {
                return Err(e);
            },
        };
        let br0 = match read_i16(data, pos) {
            Ok(v) => v,
            Err(e) => {
                return Err(e);
            },
        };
        let br1 = match read_i16(data, pos) {
            Ok(v) => v,
            Err(e) => {
                return Err(e);
            },
        };
        let br2 = match read_i16(data, pos) {
            Ok(v) => v,
            Err(e) => {
                return Err(e);
            },
        };
        let br3 = match read_i16(data, pos) {
            Ok(v) => v,
            Err(e) => {
                return Err(e);
            },
        };
        if !has_bytes(data, *pos, 12) {
            return Err(Error::Io);
        }
        let i0 = *pos as usize;
        let style_record: [u8; 12] = [
            data[i0],
            data[i0 + 1],
            data[i0 + 2],
            data[i0 + 3],
            data[i0 + 4],
            data[i0 + 5],
            data[i0 + 6],
            data[i0 + 7],
            data[i0 + 8],
            data[i0 + 9],
            data[i0 + 10],
            data[i0 + 11],
        ];
        *pos = *pos + 12;
        match seek_end(pos, start, size) {
            Ok(()) => {},
            Err(e) => {
                return Err(e);
            },
        }
        Ok(
            Tx3gBox {
                data_reference_index,
                display_flags,
                horizontal_justification,
                vertical_justification,
                bg_color_rgba: RgbaColor { red, green, blue, alpha },
                box_record: [br0, br1, br2, br3],
                style_record,
            },
        )
    }
}

} // verus!
