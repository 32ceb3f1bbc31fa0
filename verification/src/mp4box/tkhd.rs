//! `tkhd` — the track header box: track id, duration, layer, volume, the
//! transformation matrix, and the presentation width and height as 16.16
//! fixed-point values.

use crate::byteio::{be16, be24, be32, be64, read_i32, read_u16, read_u32, read_u64, sbe32};
use crate::error::Error;
use crate::mp4box::{box_start, read_box_header_ext, seek_end, BoxType, Mp4Box, ReadBox};
use crate::types::{FixedPointU16, FixedPointU8};
use vstd::prelude::*;

verus! {

/// The flag bits a track header may carry.
#[derive(Debug, Clone, Copy, PartialEq, Eq, Structural)]
pub enum TrackFlag {
    TrackEnabled,
}

impl TrackFlag {
    /// The bit the flag occupies in the track-header flag word.
    pub fn bit(self) -> (r: u32)
        ensures
            r == 1,
    {
        match self {
            TrackFlag::TrackEnabled => 0x000001,
        }
    }
}

#[derive(Debug, Clone, Copy, PartialEq, Eq, Structural)]
pub struct Matrix {
    pub a: i32,
    pub b: i32,
    pub u: i32,
    pub c: i32,
    pub d: i32,
    pub v: i32,
    pub x: i32,
    pub y: i32,
    pub w: i32,
}

impl Matrix {
    /// The identity transform as stored in most files.
    pub fn identity() -> (m: Matrix)
        ensures
            m.a == 0x00010000,
            m.d == 0x00010000,
            m.w == 0x40000000,
            m.b == 0 && m.u == 0 && m.c == 0 && m.v == 0 && m.x == 0 && m.y == 0,
    {
        Matrix {
            a: 0x00010000,
            b: 0,
            u: 0,
            c: 0,
            d: 0x00010000,
            v: 0,
            x: 0,
            y: 0,
            w: 0x40000000,
        }
    }
}

#[derive(Debug, Clone, Copy, PartialEq, Eq, Structural)]
pub struct TkhdBox {
    pub version: u8,
    pub flags: u32,
    pub creation_time: u64,
    pub modification_time: u64,
    pub track_id: u32,
    pub duration: u64,
    pub layer: u16,
    pub alternate_group: u16,
    pub volume: FixedPointU8,
    pub matrix: Matrix,
    pub width: FixedPointU16,
    pub height: FixedPointU16,
}

impl TkhdBox {
    pub fn get_type(&self) -> (t: BoxType)
        ensures
            t == BoxType::TkhdBox,
    {
        BoxType::TkhdBox
    }

    pub fn get_size(&self) -> (s: u64)
        ensures
            s as int == self.size_spec(),
    {
        if self.version == 1 {
            8 + 4 + 32 + 60
        } else {
            8 + 4 + 20 + 60
        }
    }

    /// Replaces the presentation width.
    pub fn set_width(&mut self, width: u16)
        ensures
            final(self).width.raw_spec() == width * 0x10000,
            final(self).height == old(self).height,
            final(self).track_id == old(self).track_id,
    {
        self.width = FixedPointU16::new(width);
    }

    /// Replaces the presentation height.
    pub fn set_height(&mut self, height: u16)
        ensures
            final(self).height.raw_spec() == height * 0x10000,
            final(self).width == old(self).width,
            final(self).track_id == old(self).track_id,
    {
        self.height = FixedPointU16::new(height);
    }
}

impl Mp4Box for TkhdBox {
    open spec fn size_spec(&self) -> int {
        if self.version == 1 {
            8int + 4 + 32 + 60
        } else {
            8int + 4 + 20 + 60
        }
    }

    proof fn size_spec_bounds(&self) {
    }

    fn box_type(&self) -> (t: BoxType) {
        self.get_type()
    }

    fn box_size(&self) -> (s: u64) {
        self.get_size()
    }
}

/// Offset just past the version-dependent times: the fixed 60-byte tail
/// starts here.
pub open spec fn tkhd_tail(s: Seq<u8>, p: int) -> int {
    if s[p] == 1 {
        p + 36
    } else {
        p + 24
    }
}

/// True when the box at body position `p` with declared size `size` decodes.
pub open spec fn tkhd_parse_ok(s: Seq<u8>, p: int, size: int) -> bool {
    &&& p + 4 <= s.len()
    &&& s[p] == 0 || s[p] == 1
    &&& tkhd_tail(s, p) + 60 <= s.len()
    &&& p - 8 + size <= u64::MAX
}

impl ReadBox for TkhdBox {
    fn read_box(data: &[u8], pos: &mut u64, size: u64) -> (r: Result<Self, Error>)
        ensures
            match r {
                Ok(b) => {
                    &&& tkhd_parse_ok(data@, *old(pos) as int, size as int)
                    &&& b.version == data@[*old(pos) as int]
                    &&& b.flags as int == be24(data@, *old(pos) + 1)
                    &&& (b.version == 1 ==> b.creation_time as int == be64(data@, *old(pos) + 4)
                        && b.modification_time as int == be64(data@, *old(pos) + 12)
                        && b.track_id as int == be32(data@, *old(pos) + 20) && b.duration as int
                        == be64(data@, *old(pos) + 28))
                    &&& (b.version == 0 ==> b.creation_time as int == be32(data@, *old(pos) + 4)
                        && b.modification_time as int == be32(data@, *old(pos) + 8)
                        && b.track_id as int == be32(data@, *old(pos) + 12) && b.duration as int
                        == be32(data@, *old(pos) + 20))
                    &&& b.layer as int == be16(data@, tkhd_tail(data@, *old(pos) as int) + 8)
                    &&& b.alternate_group as int == be16(
                        data@,
                        tkhd_tail(data@, *old(pos) as int) + 10,
                    )
                    &&& b.volume.raw_spec() == be16(data@, tkhd_tail(data@, *old(pos) as int) + 12)
                    &&& b.matrix.a as int == sbe32(data@, tkhd_tail(data@, *old(pos) as int) + 16)
                    &&& b.matrix.w as int == sbe32(data@, tkhd_tail(data@, *old(pos) as int) + 48)
                    &&& b.width.raw_spec() == be32(data@, tkhd_tail(data@, *old(pos) as int) + 52)
                    &&& b.height.raw_spec() == be32(data@, tkhd_tail(data@, *old(pos) as int) + 56)
                    &&& *final(pos) == *old(pos) - 8 + size
                },
                Err(e) => {
                    &&& !tkhd_parse_ok(data@, *old(pos) as int, size as int)
                    &&& (e is Io || e is MalformedContainer)
                },
            },
    {
        let start = box_start(*pos);
        let (version, flags) = match read_box_header_ext(data, pos) {
            Ok(vf) => vf,
            Err(e) => {
                return Err(e);
            },
        };
        let creation_time: u64;
        let modification_time: u64;
        let track_id: u32;
        let duration: u64;
        if version == 1 {
            creation_time = match read_u64(data, pos) {
                Ok(v) => v,
                Err(e) => {
                    return Err(e);
                },
            };
            modification_time = match read_u64(data, pos) {
                Ok(v) => v,
                Err(e) => {
                    return Err(e);
                },
            };
            track_id = match read_u32(data, pos) {
                Ok(v) => v,
                Err(e) => {
                    return Err(e);
                },
            };
            match read_u32(data, pos) {
                Ok(_) => {},
                Err(e) => {
                    return Err(e);
                },
            }
            duration = match read_u64(data, pos) {
                Ok(v) => v,
                Err(e) => {
                    return Err(e);
                },
            };
        } else if version == 0 {
            creation_time = match read_u32(data, pos) {
                Ok(v) => v as u64,
                Err(e) => {
                    return Err(e);
                },
            };
            modification_time = match read_u32(data, pos) {
                Ok(v) => v as u64,
                Err(e) => {
                    return Err(e);
                },
            };
            track_id = match read_u32(data, pos) {
                Ok(v) => v,
                Err(e) => {
                    return Err(e);
                },
            };
            match read_u32(data, pos) {
                Ok(_) => {},
                Err(e) => {
                    return Err(e);
                },
            }
            duration = match read_u32(data, pos) {
                Ok(v) => v as u64,
                Err(e) => {
                    return Err(e);
                },
            };
        } else {
            return Err(Error::MalformedContainer("version must be 0 or 1"));
        }
        match read_u64(data, pos) {
            Ok(_) => {},
            Err(e) => {
                return Err(e);
            },
        }
        let layer = match read_u16(data, pos) {
            Ok(v) => v,
            Err(e) => {
                return Err(e);
            },
        };
        let alternate_group = match read_u16(data, pos) {
            Ok(v) => v,
            Err(e) => {
                return Err(e);
            },
        };
        let volume_raw = match read_u16(data, pos) {
            Ok(v) => v,
            Err(e) => {
                return Err(e);
            },
        };
        match read_u16(data, pos) {
            Ok(_) => {},
            Err(e) => {
                return Err(e);
            },
        }
        let a = match read_i32(data, pos) {
            Ok(v) => v,
            Err(e) => {
                return Err(e);
            },
        };
        let b = match read_i32(data, pos) {
            Ok(v) => v,
            Err(e) => {
                return Err(e);
            },
        };
        let u = match read_i32(data, pos) {
            Ok(v) => v,
            Err(e) => {
                return Err(e);
            },
        };
        let c = match read_i32(data, pos) {
            Ok(v) => v,
            Err(e) => {
                return Err(e);
            },
        };
        let d = match read_i32(data, pos) {
            Ok(v) => v,
            Err(e) => {
                return Err(e);
            },
        };
        let v = match read_i32(data, pos) {
            Ok(v) => v,
            Err(e) => {
                return Err(e);
            },
        };
        let x = match read_i32(data, pos) {
            Ok(v) => v,
            Err(e) => {
                return Err(e);
            },
        };
        let y = match read_i32(data, pos) {
            Ok(v) => v,
            Err(e) => {
                return Err(e);
            },
        };
        let w = match read_i32(data, pos) {
            Ok(v) => v,
            Err(e) => {
                return Err(e);
            },
        };
        let width = match read_u32(data, pos) {
            Ok(v) => FixedPointU16::new_raw(v),
            Err(e) => {
                return Err(e);
            },
        };
        let height = match read_u32(data, pos) {
            Ok(v) => FixedPointU16::new_raw(v),
            Err(e) => {
                return Err(e);
            },
        };
        match seek_end(pos, start, size) {
            Ok(()) => {},
            Err(e) => {
                return Err(e);
            },
        }
        Ok(
            TkhdBox {
                version,
                flags,
                creation_time,
                modification_time,
                track_id,
                duration,
                layer,
                alternate_group,
                volume: FixedPointU8::new_raw(volume_raw),
                matrix: Matrix { a, b, u, c, d, v, x, y, w },
                width,
                height,
            },
        )
    }
}

} // verus!
