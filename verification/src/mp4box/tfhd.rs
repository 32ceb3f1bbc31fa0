//! `tfhd` — the track-fragment header box: the track id and the optional
//! per-fragment overrides of the sample defaults, each present exactly when
//! its flag bit is set.  Two further flag bits carry no fields but steer the
//! base-data-offset resolution: an explicit base offset, and
//! "default-base-is-moof".

use crate::byteio::{be24, be32, be64, read_u32, read_u64};
use crate::error::Error;
use crate::mp4box::{box_start, read_box_header_ext, seek_end, BoxType, Mp4Box, ReadBox};
use vstd::prelude::*;

verus! {

#[derive(Debug, Clone, Copy, PartialEq, Eq, Structural)]
pub struct TfhdBox {
    pub version: u8,
    pub flags: u32,
    pub track_id: u32,
    pub base_data_offset: Option<u64>,
    pub sample_description_index: Option<u32>,
    pub default_sample_duration: Option<u32>,
    pub default_sample_size: Option<u32>,
    pub default_sample_flags: Option<u32>,
}

impl TfhdBox {
    pub const FLAG_BASE_DATA_OFFSET: u32 = 0x01;

    pub const FLAG_SAMPLE_DESCRIPTION_INDEX: u32 = 0x02;

    pub const FLAG_DEFAULT_SAMPLE_DURATION: u32 = 0x08;

    pub const FLAG_DEFAULT_SAMPLE_SIZE: u32 = 0x10;

    pub const FLAG_DEFAULT_SAMPLE_FLAGS: u32 = 0x20;

    pub const FLAG_DURATION_IS_EMPTY: u32 = 0x10000;

    pub const FLAG_DEFAULT_BASE_IS_MOOF: u32 = 0x20000;

    pub fn get_type(&self) -> (t: BoxType)
        ensures
            t == BoxType::TfhdBox,
    {
        BoxType::TfhdBox
    }

    pub fn get_size(&self) -> (s: u64)
        ensures
            s as int == self.size_spec(),
    {
        let mut sum: u64 = 8 + 4 + 4;
        if self.flags & Self::FLAG_BASE_DATA_OFFSET != 0 {
            sum = sum + 8;
        }
        if self.flags & Self::FLAG_SAMPLE_DESCRIPTION_INDEX != 0 {
            sum = sum + 4;
        }
        if self.flags & Self::FLAG_DEFAULT_SAMPLE_DURATION != 0 {
            sum = sum + 4;
        }
        if self.flags & Self::FLAG_DEFAULT_SAMPLE_SIZE != 0 {
            sum = sum + 4;
        }
        if self.flags & Self::FLAG_DEFAULT_SAMPLE_FLAGS != 0 {
            sum = sum + 4;
        }
        sum
    }
}

/// The number of bytes a field of width `n` occupies when `present`.
pub open spec fn opt_field_len(present: bool, n: int) -> int {
    if present {
        n
    } else {
        0
    }
}

impl Mp4Box for TfhdBox {
    open spec fn size_spec(&self) -> int {
        8 + 4 + 4 + opt_field_len(self.flags & 0x01 != 0, 8) + opt_field_len(
            self.flags & 0x02 != 0,
            4,
        ) + opt_field_len(self.flags & 0x08 != 0, 4) + opt_field_len(self.flags & 0x10 != 0, 4)
            + opt_field_len(self.flags & 0x20 != 0, 4)
    }

    proof fn size_spec_bounds(&self) {
    }

    fn box_type(&self) -> (t: BoxType) {
        self.get_type()
    }

    fn box_size(&self) -> (s: u64) {
        self.get_size()
    }
}

/// The flag word of the `tfhd` whose body starts at `p`.
pub open spec fn tfhd_flags(s: Seq<u8>, p: int) -> u32 {
    be24(s, p + 1) as u32
}

/// Offset of the optional sample-description-index field.
pub open spec fn tfhd_sdi_off(s: Seq<u8>, p: int) -> int {
    p + 8 + opt_field_len(tfhd_flags(s, p) & 0x01 != 0, 8)
}

/// Offset of the optional default-sample-duration field.
pub open spec fn tfhd_dur_off(s: Seq<u8>, p: int) -> int {
    tfhd_sdi_off(s, p) + opt_field_len(tfhd_flags(s, p) & 0x02 != 0, 4)
}

/// Offset of the optional default-sample-size field.
pub open spec fn tfhd_size_off(s: Seq<u8>, p: int) -> int {
    tfhd_dur_off(s, p) + opt_field_len(tfhd_flags(s, p) & 0x08 != 0, 4)
}

/// Offset of the optional default-sample-flags field.
pub open spec fn tfhd_sf_off(s: Seq<u8>, p: int) -> int {
    tfhd_size_off(s, p) + opt_field_len(tfhd_flags(s, p) & 0x10 != 0, 4)
}

/// Offset just past the last optional field.
pub open spec fn tfhd_end_off(s: Seq<u8>, p: int) -> int {
    tfhd_sf_off(s, p) + opt_field_len(tfhd_flags(s, p) & 0x20 != 0, 4)
}

/// True when the header at body position `p` with declared size `size`
/// decodes: every field selected by the flag bits lies within the data.
pub open spec fn tfhd_parse_ok(s: Seq<u8>, p: int, size: int) -> bool {
    &&& p + 8 <= s.len()
    &&& tfhd_end_off(s, p) <= s.len()
    &&& p - 8 + size <= u64::MAX
}

impl ReadBox for TfhdBox {
    fn read_box(data: &[u8], pos: &mut u64, size: u64) -> (r: Result<Self, Error>)
        ensures
            match r {
                Ok(b) => {
                    &&& tfhd_parse_ok(data@, *old(pos) as int, size as int)
                    &&& b.version == data@[*old(pos) as int]
                    &&& b.flags == tfhd_flags(data@, *old(pos) as int)
                    &&& b.track_id as int == be32(data@, *old(pos) + 4)
                    &&& (b.base_data_offset is Some <==> b.flags & 0x01 != 0)
                    &&& (b.base_data_offset matches Some(v) ==> v as int == be64(
                        data@,
                        *old(pos) + 8,
                    ))
                    &&& (b.sample_description_index is Some <==> b.flags & 0x02 != 0)
                    &&& (b.sample_description_index matches Some(v) ==> v as int == be32(
                        data@,
                        tfhd_sdi_off(data@, *old(pos) as int),
                    ))
                    &&& (b.default_sample_duration is Some <==> b.flags & 0x08 != 0)
                    &&& (b.default_sample_duration matches Some(v) ==> v as int == be32(
                        data@,
                        tfhd_dur_off(data@, *old(pos) as int),
                    ))
                    &&& (b.default_sample_size is Some <==> b.flags & 0x10 != 0)
                    &&& (b.default_sample_size matches Some(v) ==> v as int == be32(
                        data@,
                        tfhd_size_off(data@, *old(pos) as int),
                    ))
                    &&& (b.default_sample_flags is Some <==> b.flags & 0x20 != 0)
                    &&& (b.default_sample_flags matches Some(v) ==> v as int == be32(
                        data@,
                        tfhd_sf_off(data@, *old(pos) as int),
                    ))
                    &&& *final(pos) == *old(pos) - 8 + size
                },
                Err(e) => {
                    &&& !tfhd_parse_ok(data@, *old(pos) as int, size as int)
                    &&& (e is Io || e is MalformedContainer)
                },
            },
    {
        let start = box_start(*pos);
        let (version, flags) = match read_box_header_ext(data, pos) {
            Ok(vf) => vf,
            Err(e) => {
                return Err(e);
            },
        };
        let track_id = match read_u32(data, pos) {
            Ok(v) => v,
            Err(e) => {
                return Err(e);
            },
        };
        let base_data_offset = if flags & Self::FLAG_BASE_DATA_OFFSET != 0 {
            match read_u64(data, pos) {
                Ok(v) => Some(v),
                Err(e) => {
                    return Err(e);
                },
            }
        } else {
            None
        };
        let sample_description_index = if flags & Self::FLAG_SAMPLE_DESCRIPTION_INDEX != 0 {
            match read_u32(data, pos) {
                Ok(v) => Some(v),
                Err(e) => {
                    return Err(e);
                },
            }
        } else {
            None
        };
        let default_sample_duration = if flags & Self::FLAG_DEFAULT_SAMPLE_DURATION != 0 {
            match read_u32(data, pos) {
                Ok(v) => Some(v),
                Err(e) => {
                    return Err(e);
                },
            }
        } else {
            None
        };
        let default_sample_size = if flags & Self::FLAG_DEFAULT_SAMPLE_SIZE != 0 {
            match read_u32(data, pos) {
                Ok(v) => Some(v),
                Err(e) => {
                    return Err(e);
                },
            }
        } else {
            None
        };
        let default_sample_flags = if flags & Self::FLAG_DEFAULT_SAMPLE_FLAGS != 0 {
            match read_u32(data, pos) {
                Ok(v) => Some(v),
                Err(e) => {
                    return Err(e);
                },
            }
        } else {
            None
        };
        match seek_end(pos, start, size) {
            Ok(()) => {},
            Err(e) => {
                return Err(e);
            },
        }
        Ok(
            TfhdBox {
                version,
                flags,
                track_id,
                base_data_offset,
                sample_description_index,
                default_sample_duration,
                default_sample_size,
                default_sample_flags,
            },
        )
    }
}

} // verus!
