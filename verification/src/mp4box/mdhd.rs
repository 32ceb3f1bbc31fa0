//! `mdhd` — the media header box: the track's timescale and duration, and
//! its ISO-639 language code packed as three 5-bit letters.

use crate::byteio::{be16, be24, be32, be64, read_u16, read_u32, read_u64};
use crate::error::Error;
use crate::mp4box::{box_start, read_box_header_ext, seek_end, BoxType, Mp4Box, ReadBox};
use crate::strutil::string_push_char;
use vstd::prelude::*;

verus! {

#[derive(Debug, Clone, PartialEq, Eq)]
pub struct MdhdBox {
    pub version: u8,
    pub flags: u32,
    pub creation_time: u64,
    pub modification_time: u64,
    pub timescale: u32,
    pub duration: u64,
    pub language: String,
}

impl MdhdBox {
    pub fn get_type(&self) -> (t: BoxType)
        ensures
            t == BoxType::MdhdBox,
    {
        BoxType::MdhdBox
    }

    pub fn get_size(&self) -> (s: u64)
        ensures
            s as int == self.size_spec(),
    {
        if self.version == 1 {
            8 + 4 + 28 + 4
        } else {
            8 + 4 + 16 + 4
        }
    }
}

impl Mp4Box for MdhdBox {
    open spec fn size_spec(&self) -> int {
        if self.version == 1 {
            8int + 4 + 28 + 4
        } else {
            8int + 4 + 16 + 4
        }
    }

    proof fn size_spec_bounds(&self) {
    }

    fn box_type(&self) -> (t: BoxType) {
        self.get_type()
    }

    fn box_size(&self) -> (s: u64) {
        self.get_size()
    }
}

/// Offset of the packed language code: past the version-dependent times.
pub open spec fn mdhd_lang_off(s: Seq<u8>, p: int) -> int {
    if s[p] == 1 {
        p + 32
    } else {
        p + 20
    }
}

/// The letter value of position `k` of a packed language code: one 5-bit
/// field, shifted into the lowercase ASCII range.
pub open spec fn lang_letter(code: int, k: int) -> int {
    if k == 0 {
        (code / 0x400) % 0x20 + 0x60
    } else if k == 1 {
        (code / 0x20) % 0x20 + 0x60
    } else {
        code % 0x20 + 0x60
    }
}

/// True when the box at body position `p` with declared size `size` decodes.
pub open spec fn mdhd_parse_ok(s: Seq<u8>, p: int, size: int) -> bool {
    &&& p + 4 <= s.len()
    &&& s[p] == 0 || s[p] == 1
    &&& mdhd_lang_off(s, p) + 2 <= s.len()
    &&& p - 8 + size <= u64::MAX
}

impl ReadBox for MdhdBox {
    fn read_box(data: &[u8], pos: &mut u64, size: u64) -> (r: Result<Self, Error>)
        ensures
            match r {
                Ok(b) => {
                    &&& mdhd_parse_ok(data@, *old(pos) as int, size as int)
                    &&& b.version == data@[*old(pos) as int]
                    &&& b.flags as int == be24(data@, *old(pos) + 1)
                    &&& (b.version == 1 ==> b.creation_time as int == be64(data@, *old(pos) + 4)
                        && b.modification_time as int == be64(data@, *old(pos) + 12)
                        && b.timescale as int == be32(data@, *old(pos) + 20)
                        && b.duration as int == be64(data@, *old(pos) + 24))
                    &&& (b.version == 0 ==> b.creation_time as int == be32(data@, *old(pos) + 4)
                        && b.modification_time as int == be32(data@, *old(pos) + 8)
                        && b.timescale as int == be32(data@, *old(pos) + 12)
                        && b.duration as int == be32(data@, *old(pos) + 16))
                    &&& b.language@.len() == 3
                    &&& forall|k: int|
                        0 <= k < 3 ==> #[trigger] b.language@[k] as int == lang_letter(
                            be16(data@, mdhd_lang_off(data@, *old(pos) as int)),
                            k,
                        )
                    &&& *final(pos) == *old(pos) - 8 + size
                },
                Err(e) => {
                    &&& !mdhd_parse_ok(data@, *old(pos) as int, size as int)
                    &&& (e is Io || e is MalformedContainer)
                },
            },
    {
        let start = box_start(*pos);
        let (version, flags) = match read_box_header_ext(data, pos) {
            Ok(vf) => vf,
            Err(e) => {
                return Err(e);
            },
        };
        let creation_time: u64;
        let modification_time: u64;
        let timescale: u32;
        let duration: u64;
        if version == 1 {
            creation_time = match read_u64(data, pos) {
                Ok(v) => v,
                Err(e) => {
                    return Err(e);
                },
            };
            modification_time = match read_u64(data, pos) {
                Ok(v) => v,
                Err(e) => {
                    return Err(e);
                },
            };
            timescale = match read_u32(data, pos) {
                Ok(v) => v,
                Err(e) => {
                    return Err(e);
                },
            };
            duration = match read_u64(data, pos) {
                Ok(v) => v,
                Err(e) => {
                    return Err(e);
                },
            };
        } else if version == 0 {
            creation_time = match read_u32(data, pos) {
                Ok(v) => v as u64,
                Err(e) => {
                    return Err(e);
                },
            };
            modification_time = match read_u32(data, pos) {
                Ok(v) => v as u64,
                Err(e) => {
                    return Err(e);
                },
            };
            timescale = match read_u32(data, pos) {
                Ok(v) => v,
                Err(e) => {
                    return Err(e);
                },
            };
            duration = match read_u32(data, pos) {
                Ok(v) => v as u64,
                Err(e) => {
                    return Err(e);
                },
            };
        } else {
            return Err(Error::MalformedContainer("version must be 0 or 1"));
        }
        let language_code = match read_u16(data, pos) {
            Ok(v) => v,
            Err(e) => {
                return Err(e);
            },
        };
        let language = language_string(language_code);
        match seek_end(pos, start, size) {
            Ok(()) => {},
            Err(e) => {
                return Err(e);
            },
        }
        Ok(MdhdBox { version, flags, creation_time, modification_time, timescale, duration, language })
    }
}

/// Unpacks the three 5-bit letters of an ISO-639 language code.
pub fn language_string(language: u16) -> (s: String)
    ensures
        s@.len() == 3,
        forall|k: int| 0 <= k < 3 ==> #[trigger] s@[k] as int == lang_letter(language as int, k),
{
    let c0: u8 = ((language / 0x400) % 0x20) as u8 + 0x60;
    let c1: u8 = ((language / 0x20) % 0x20) as u8 + 0x60;
    let c2: u8 = (language % 0x20) as u8 + 0x60;
    let mut s = String::new();
    string_push_char(&mut s, c0 as char);
    string_push_char(&mut s, c1 as char);
    string_push_char(&mut s, c2 as char);
    s
}

} // verus!
