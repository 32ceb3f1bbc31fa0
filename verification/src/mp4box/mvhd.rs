//! `mvhd` — the movie header box: the movie timescale, the overall
//! duration, playback rate and volume, and the next free track id.

use crate::byteio::{be16, be24, be32, be64, read_i32, read_u16, read_u32, read_u64, skip_bytes};
use crate::error::Error;
use crate::mp4box::tkhd::Matrix;
use crate::mp4box::{box_start, read_box_header_ext, seek_end, BoxType, Mp4Box, ReadBox};
use crate::types::{FixedPointU16, FixedPointU8};
use vstd::prelude::*;

verus! {

#[derive(Debug, Clone, Copy, PartialEq, Eq, Structural)]
pub struct MvhdBox {
    pub version: u8,
    pub flags: u32,
    pub creation_time: u64,
    pub modification_time: u64,
    pub timescale: u32,
    pub duration: u64,
    pub rate: FixedPointU16,
    pub volume: FixedPointU8,
    pub matrix: Matrix,
    pub next_track_id: u32,
}

impl MvhdBox {
    pub fn get_type(&self) -> (t: BoxType)
        ensures
            t == BoxType::MvhdBox,
    {
        BoxType::MvhdBox
    }

    pub fn get_size(&self) -> (s: u64)
        ensures
            s as int == self.size_spec(),
    {
        if self.version == 1 {
            8 + 4 + 28 + 80
        } else {
            8 + 4 + 16 + 80
        }
    }
}

impl Mp4Box for MvhdBox {
    open spec fn size_spec(&self) -> int {
        if self.version == 1 {
            8int + 4 + 28 + 80
        } else {
            8int + 4 + 16 + 80
        }
    }

    proof fn size_spec_bounds(&self) {
    }

    fn box_type(&self) -> (t: BoxType) {
        self.get_type()
    }

    fn box_size(&self) -> (s: u64) {
        self.get_size()
    }
}

/// Offset just past the version-dependent times: the fixed 80-byte tail
/// starts here.
pub open spec fn mvhd_tail(s: Seq<u8>, p: int) -> int {
    if s[p] == 1 {
        p + 32
    } else {
        p + 20
    }
}

/// True when the box at body position `p` with declared size `size` decodes.
pub open spec fn mvhd_parse_ok(s: Seq<u8>, p: int, size: int) -> bool {
    &&& p + 4 <= s.len()
    &&& s[p] == 0 || s[p] == 1
    &&& mvhd_tail(s, p) + 80 <= s.len()
    &&& p - 8 + size <= u64::MAX
}

impl ReadBox for MvhdBox {
    fn read_box(data: &[u8], pos: &mut u64, size: u64) -> (r: Result<Self, Error>)
        ensures
            match r {
                Ok(b) => {
                    &&& mvhd_parse_ok(data@, *old(pos) as int, size as int)
                    &&& b.version == data@[*old(pos) as int]
                    &&& b.flags as int == be24(data@, *old(pos) + 1)
                    &&& (b.version == 1 ==> b.creation_time as int == be64(data@, *old(pos) + 4)
                        && b.modification_time as int == be64(data@, *old(pos) + 12)
                        && b.timescale as int == be32(data@, *old(pos) + 20) && b.duration as int
                        == be64(data@, *old(pos) + 24))
                    &&& (b.version == 0 ==> b.creation_time as int == be32(data@, *old(pos) + 4)
                        && b.modification_time as int == be32(data@, *old(pos) + 8)
                        && b.timescale as int == be32(data@, *old(pos) + 12) && b.duration as int
                        == be32(data@, *old(pos) + 16))
                    &&& b.rate.raw_spec() == be32(data@, mvhd_tail(data@, *old(pos) as int))
                    &&& b.volume.raw_spec() == be16(data@, mvhd_tail(data@, *old(pos) as int) + 4)
                    &&& b.next_track_id as int == be32(
                        data@,
                        mvhd_tail(data@, *old(pos) as int) + 76,
                    )
                    &&& *final(pos) == *old(pos) - 8 + size
                },
                Err(e) => {
                    &&& !mvhd_parse_ok(data@, *old(pos) as int, size as int)
                    &&& (e is Io || e is MalformedContainer)
                },
            },
    {
        let start = box_start(*pos);
        let (version, flags) = match read_box_header_ext(data, pos) {
            Ok(vf) => vf,
            Err(e) => {
                return Err(e);
            },
        };
        let creation_time: u64;
        let modification_time: u64;
        let timescale: u32;
        let duration: u64;
        if version == 1 {
            creation_time = match read_u64(data, pos) {
                Ok(v) => v,
                Err(e) => {
                    return Err(e);
                },
            };
            modification_time = match read_u64(data, pos) {
                Ok(v) => v,
                Err(e) => {
                    return Err(e);
                },
            };
            timescale = match read_u32(data, pos) {
                Ok(v) => v,
                Err(e) => {
                    return Err(e);
                },
            };
            duration = match read_u64(data, pos) {
                Ok(v) => v,
                Err(e) => {
                    return Err(e);
                },
            };
        } else if version == 0 {
            creation_time = match read_u32(data, pos) {
                Ok(v) => v as u64,
                Err(e) => {
                    return Err(e);
                },
            };
            modification_time = match read_u32(data, pos) {
                Ok(v) => v as u64,
                Err(e) => {
                    return Err(e);
                },
            };
            timescale = match read_u32(data, pos) {
                Ok(v) => v,
                Err(e) => {
                    return Err(e);
                },
            };
            duration = match read_u32(data, pos) {
                Ok(v) => v as u64,
                Err(e) => {
                    return Err(e);
                },
            };
        } else {
            return Err(Error::MalformedContainer("version must be 0 or 1"));
        }
        let rate = match read_u32(data, pos) {
            Ok(v) => FixedPointU16::new_raw(v),
            Err(e) => {
                return Err(e);
            },
        };
        let volume = match read_u16(data, pos) {
            Ok(v) => FixedPointU8::new_raw(v),
            Err(e) => {
                return Err(e);
            },
        };
        match read_u16(data, pos) {
            Ok(_) => {},
            Err(e) => {
                return Err(e);
            },
        }
        match read_u64(data, pos) {
            Ok(_) => {},
            Err(e) => {
                return Err(e);
            },
        }
        let a = match read_i32(data, pos) {
            Ok(v) => v,
            Err(e) => {
                return Err(e);
            },
        };
        let b = match read_i32(data, pos) {
            Ok(v) => v,
            Err(e) => {
                return Err(e);
            },
        };
        let u = match read_i32(data, pos) {
            Ok(v) => v,
            Err(e) => {
                return Err(e);
            },
        };
        let c = match read_i32(data, pos) {
            Ok(v) => v,
            Err(e) => {
                return Err(e);
            },
        };
        let d = match read_i32(data, pos) {
            Ok(v) => v,
            Err(e) => {
                return Err(e);
            },
        };
        let v = match read_i32(data, pos) {
            Ok(v) => v,
            Err(e) => {
                return Err(e);
            },
        };
        let x = match read_i32(data, pos) {
            Ok(v) => v,
            Err(e) => {
                return Err(e);
            },
        };
        let y = match read_i32(data, pos) {
            Ok(v) => v,
            Err(e) => {
                return Err(e);
            },
        };
        let w = match read_i32(data, pos) {
            Ok(v) => v,
            Err(e) => {
                return Err(e);
            },
        };
        match skip_bytes(data, pos, 24) {
            Ok(()) => {},
            Err(e) => {
                return Err(e);
            },
        }
        let next_track_id = match read_u32(data, pos) {
            Ok(v) => v,
            Err(e) => {
                return Err(e);
            },
        };
        match seek_end(pos, start, size) {
            Ok(()) => {},
            Err(e) => {
                return Err(e);
            },
        }
        Ok(
            MvhdBox {
                version,
                flags,
                creation_time,
                modification_time,
                timescale,
                duration,
                rate,
                volume,
                matrix: Matrix { a, b, u, c, d, v, x, y, w },
                next_track_id,
            },
        )
    }
}

} // verus!
