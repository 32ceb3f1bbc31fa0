//! `tfdt` — the track-fragment decode-time box: the decode timestamp of the
//! first sample in the fragment, in track timescale units.

use crate::byteio::{be24, be32, be64, read_u32, read_u64};
use crate::error::Error;
use crate::mp4box::{box_start, read_box_header_ext, seek_end, BoxType, Mp4Box, ReadBox};
use vstd::prelude::*;

verus! {

#[derive(Debug, Clone, Copy, PartialEq, Eq, Structural)]
pub struct TfdtBox {
    pub version: u8,
    pub flags: u32,
    pub base_media_decode_time: u64,
}

impl TfdtBox {
    pub fn get_type(&self) -> (t: BoxType)
        ensures
            t == BoxType::TfdtBox,
    {
        BoxType::TfdtBox
    }

    pub fn get_size(&self) -> (s: u64)
        ensures
            s as int == self.size_spec(),
    {
        if self.version == 1 {
            8 + 4 + 8
        } else {
            8 + 4 + 4
        }
    }
}

impl Mp4Box for TfdtBox {
    open spec fn size_spec(&self) -> int {
        if self.version == 1 {
            8int + 4 + 8
        } else {
            8int + 4 + 4
        }
    }

    proof fn size_spec_bounds(&self) {
    }

    fn box_type(&self) -> (t: BoxType) {
        self.get_type()
    }

    fn box_size(&self) -> (s: u64) {
        self.get_size()
    }
}

/// True when the box at body position `p` with declared size `size` decodes:
/// the version must be 0 or 1 and the timestamp bytes present.
pub open spec fn tfdt_parse_ok(s: Seq<u8>, p: int, size: int) -> bool {
    &&& p + 4 <= s.len()
    &&& s[p] == 0 || s[p] == 1
    &&& (s[p] == 1 ==> p + 12 <= s.len())
    &&& (s[p] == 0 ==> p + 8 <= s.len())
    &&& p - 8 + size <= u64::MAX
}

/// The decode time the box at `p` stores: 64 bits under version 1, 32 bits
/// under version 0.
pub open spec fn tfdt_decode_time(s: Seq<u8>, p: int) -> int {
    if s[p] == 1 {
        be64(s, p + 4)
    } else {
        be32(s, p + 4)
    }
}

impl ReadBox for TfdtBox {
    fn read_box(data: &[u8], pos: &mut u64, size: u64) -> (r: Result<Self, Error>)
        ensures
            match r {
                Ok(b) => {
                    &&& tfdt_parse_ok(data@, *old(pos) as int, size as int)
                    &&& b.version == data@[*old(pos) as int]
                    &&& b.flags as int == be24(data@, *old(pos) + 1)
                    &&& b.base_media_decode_time as int == tfdt_decode_time(
                        data@,
                        *old(pos) as int,
                    )
                    &&& *final(pos) == *old(pos) - 8 + size
                },
                Err(e) => {
                    &&& !tfdt_parse_ok(data@, *old(pos) as int, size as int)
                    &&& (e is Io || e is MalformedContainer)
                },
            },
    {
        let start = box_start(*pos);
        let (version, flags) = match read_box_header_ext(data, pos) {
            Ok(vf) => vf,
            Err(e) => {
                return Err(e);
            },
        };
        let base_media_decode_time: u64 = if version == 1 {
            match read_u64(data, pos) {
                Ok(v) => v,
                Err(e) => {
                    return Err(e);
                },
            }
        } else if version == 0 {
            match read_u32(data, pos) {
                Ok(v) => v as u64,
                Err(e) => {
                    return Err(e);
                },
            }
        } else {
            return Err(Error::MalformedContainer("version must be 0 or 1"));
        };
        match seek_end(pos, start, size) {
            Ok(()) => {},
            Err(e) => {
                return Err(e);
            },
        }
        Ok(TfdtBox { version, flags, base_media_decode_time })
    }
}

} // verus!
