//! `data` — the metadata value box: a type tag and the raw value bytes.

use crate::byteio::{copy_bytes, read_u32};
use crate::error::Error;
use crate::mp4box::{box_start, seek_end, BoxType, Mp4Box, ReadBox};
use crate::types::DataType;
use vstd::prelude::*;

verus! {

#[derive(Debug, Clone, PartialEq, Eq)]
pub struct DataBox {
    pub data: Vec<u8>,
    pub data_type: DataType,
}

impl DataBox {
    pub fn get_type(&self) -> (t: BoxType)
        ensures
            t == BoxType::DataBox,
    {
        BoxType::DataBox
    }

    pub fn get_size(&self) -> (s: u64)
        requires
            self.size_spec() <= u64::MAX,
        ensures
            s as int == self.size_spec(),
    {
        8 + 4 + 4 + (self.data.len() as u64)
    }
}

impl Mp4Box for DataBox {
    open spec fn size_spec(&self) -> int {
        8 + 4 + 4 + (self.data@.len() as int)
    }

    proof fn size_spec_bounds(&self) {
    }

    fn box_type(&self) -> (t: BoxType) {
        self.get_type()
    }

    fn box_size(&self) -> (s: u64) {
        self.get_size()
    }
}

impl ReadBox for DataBox {
    fn read_box(data: &[u8], pos: &mut u64, size: u64) -> (r: Result<Self, Error>)
        ensures
            r is Ok ==> *final(pos) == *old(pos) - 8 + size,
    {
        let start = box_start(*pos);
        let type_code = match read_u32(data, pos) {
            Ok(v) => v,
            Err(e) => {
                return Err(e);
            },
        };
        let data_type = match DataType::from_u32(type_code) {
            Ok(t) => t,
            Err(e) => {
                return Err(e);
            },
        };
        match read_u32(data, pos) {
            Ok(_) => {},
            Err(e) => {
                return Err(e);
            },
        }
        if size < 16 {
            return Err(Error::MalformedContainer("data box too small"));
        }
        let contents = match copy_bytes(data, *pos, size - 16) {
            Ok(v) => v,
            Err(e) => {
                return Err(e);
            },
        };
        match seek_end(pos, start, size) {
            Ok(()) => {},
            Err(e) => {
                return Err(e);
            },
        }
        Ok(DataBox { data: contents, data_type })
    }
}

} // verus!
