//! `trex` — the track-extends box: the movie-level default sample
//! description index, duration, size and flags for one track, used as the
//! last fallback of the fragment default cascade.

use crate::byteio::{be24, be32, read_u32};
use crate::error::Error;
use crate::mp4box::{box_start, read_box_header_ext, seek_end, BoxType, Mp4Box, ReadBox};
use vstd::prelude::*;

verus! {

#[derive(Debug, Clone, Copy, PartialEq, Eq, Structural)]
pub struct TrexBox {
    pub version: u8,
    pub flags: u32,
    pub track_id: u32,
    pub default_sample_description_index: u32,
    pub default_sample_duration: u32,
    pub default_sample_size: u32,
    pub default_sample_flags: u32,
}

impl TrexBox {
    pub fn get_type(&self) -> (t: BoxType)
        ensures
            t == BoxType::TrexBox,
    {
        BoxType::TrexBox
    }

    pub fn get_size(&self) -> (s: u64)
        ensures
            s as int == self.size_spec(),
    {
        8 + 4 + 20
    }

    /// The defaults used for a track that declares no track-extends box:
    /// everything zero.
    pub fn empty(track_id: u32) -> (t: TrexBox)
        ensures
            t.track_id == track_id,
            t.version == 0,
            t.flags == 0,
            t.default_sample_duration == 0,
            t.default_sample_size == 0,
            t.default_sample_flags == 0,
            t.default_sample_description_index == 0,
    {
        TrexBox {
            version: 0,
            flags: 0,
            track_id,
            default_sample_description_index: 0,
            default_sample_duration: 0,
            default_sample_size: 0,
            default_sample_flags: 0,
        }
    }
}

impl Mp4Box for TrexBox {
    open spec fn size_spec(&self) -> int {
        8int + 4 + 20
    }

    proof fn size_spec_bounds(&self) {
    }

    fn box_type(&self) -> (t: BoxType) {
        self.get_type()
    }

    fn box_size(&self) -> (s: u64) {
        self.get_size()
    }
}

impl ReadBox for TrexBox {
    fn read_box(data: &[u8], pos: &mut u64, size: u64) -> (r: Result<Self, Error>)
        ensures
            match r {
                Ok(b) => {
                    &&& *old(pos) + 24 <= data@.len()
                    &&& *old(pos) - 8 + size <= u64::MAX
                    &&& b.version == data@[*old(pos) as int]
                    &&& b.flags as int == be24(data@, *old(pos) + 1)
                    &&& b.track_id as int == be32(data@, *old(pos) + 4)
                    &&& b.default_sample_description_index as int == be32(data@, *old(pos) + 8)
                    &&& b.default_sample_duration as int == be32(data@, *old(pos) + 12)
                    &&& b.default_sample_size as int == be32(data@, *old(pos) + 16)
                    &&& b.default_sample_flags as int == be32(data@, *old(pos) + 20)
                    &&& *final(pos) == *old(pos) - 8 + size
                },
                Err(e) => {
                    &&& (*old(pos) + 24 > data@.len() || *old(pos) - 8 + size > u64::MAX)
                    &&& (e is Io || e is MalformedContainer)
                },
            },
    {
        let start = box_start(*pos);
        let (version, flags) = match read_box_header_ext(data, pos) {
            Ok(vf) => vf,
            Err(e) => {
                return Err(e);
            },
        };
        let track_id = match read_u32(data, pos) {
            Ok(v) => v,
            Err(e) => {
                return Err(e);
            },
        };
        let default_sample_description_index = match read_u32(data, pos) {
            Ok(v) => v,
            Err(e) => {
                return Err(e);
            },
        };
        let default_sample_duration = match read_u32(data, pos) {
            Ok(v) => v,
            Err(e) => {
                return Err(e);
            },
        };
        let default_sample_size = match read_u32(data, pos) {
            Ok(v) => v,
            Err(e) => {
                return Err(e);
            },
        };
        let default_sample_flags = match read_u32(data, pos) {
            Ok(v) => v,
            Err(e) => {
                return Err(e);
            },
        };
        match seek_end(pos, start, size) {
            Ok(()) => {},
            Err(e) => {
                return Err(e);
            },
        }
        Ok(
            TrexBox {
                version,
                flags,
                track_id,
                default_sample_description_index,
                default_sample_duration,
                default_sample_size,
                default_sample_flags,
            },
        )
    }
}

} // verus!
