//! `hdlr` — the handler box: the handler-type FourCC that classifies a
//! track (video, audio, subtitle) and a human-readable handler name.

use crate::byteio::{be24, be32, copy_bytes, read_u32, skip_bytes};
use crate::error::Error;
use crate::mp4box::{box_start, read_box_header_ext, seek_end, BoxType, Mp4Box, ReadBox};
use crate::strutil::utf8_or_empty;
use crate::types::{u32_be_bytes, FourCC};
use vstd::prelude::*;

verus! {

#[derive(Debug, Clone, PartialEq, Eq)]
pub struct HdlrBox {
    pub version: u8,
    pub flags: u32,
    pub handler_type: FourCC,
    pub name: String,
}

impl HdlrBox {
    pub fn get_type(&self) -> (t: BoxType)
        ensures
            t == BoxType::HdlrBox,
    {
        BoxType::HdlrBox
    }

    pub fn get_size(&self) -> (s: u64)
        requires
            self.size_spec() <= u64::MAX,
        ensures
            s as int == self.size_spec(),
    {
        8 + 4 + 20 + (self.name.as_str().unicode_len() as u64) + 1
    }
}

impl Mp4Box for HdlrBox {
    open spec fn size_spec(&self) -> int {
        8 + 4 + 20 + (self.name@.len() as int) + 1
    }

    proof fn size_spec_bounds(&self) {
    }

    fn box_type(&self) -> (t: BoxType) {
        self.get_type()
    }

    fn box_size(&self) -> (s: u64) {
        self.get_size()
    }
}

/// True when the box at body position `p` with declared size `size`
/// decodes: the declared size covers the 20 fixed body bytes and the name
/// bytes up to the box end lie within the data.
pub open spec fn hdlr_parse_ok(s: Seq<u8>, p: int, size: int) -> bool {
    &&& size >= 32
    &&& p - 8 + size <= s.len()
    &&& p - 8 + size <= u64::MAX
}

impl ReadBox for HdlrBox {
    /// Decodes the handler type; the trailing name bytes are taken as
    /// UTF-8 up to the first NUL, or as the empty string when invalid.
    fn read_box(data: &[u8], pos: &mut u64, size: u64) -> (r: Result<Self, Error>)
        ensures
            match r {
                Ok(b) => {
                    &&& hdlr_parse_ok(data@, *old(pos) as int, size as int)
                    &&& b.version == data@[*old(pos) as int]
                    &&& b.flags as int == be24(data@, *old(pos) + 1)
                    &&& b.handler_type.value == u32_be_bytes(be32(data@, *old(pos) + 8))
                    &&& *final(pos) == *old(pos) - 8 + size
                },
                Err(e) => {
                    &&& !hdlr_parse_ok(data@, *old(pos) as int, size as int)
                    &&& (e is Io || e is MalformedContainer)
                },
            },
    {
        let start = box_start(*pos);
        let (version, flags) = match read_box_header_ext(data, pos) {
            Ok(vf) => vf,
            Err(e) => {
                return Err(e);
            },
        };
        match read_u32(data, pos) {
            Ok(_) => {},
            Err(e) => {
                return Err(e);
            },
        }
        let handler = match read_u32(data, pos) {
            Ok(v) => v,
            Err(e) => {
                return Err(e);
            },
        };
        match skip_bytes(data, pos, 12) {
            Ok(()) => {},
            Err(e) => {
                return Err(e);
            },
        }
        if size < 32 {
            return Err(Error::MalformedContainer("hdlr size too small"));
        }
        let buf = match copy_bytes(data, *pos, size - 32) {
            Ok(v) => v,
            Err(e) => {
                return Err(e);
            },
        };
        let truncated = take_until_nul(buf);
        let name = utf8_or_empty(truncated);
        match seek_end(pos, start, size) {
            Ok(()) => {},
            Err(e) => {
                return Err(e);
            },
        }
        Ok(HdlrBox { version, flags, handler_type: FourCC::from_u32(handler), name })
    }
}

/// The bytes before the first NUL, or all of them when none occurs.
pub fn take_until_nul(bytes: Vec<u8>) -> (r: Vec<u8>)
    ensures
        r@.len() <= bytes@.len(),
        forall|i: int| 0 <= i < r@.len() ==> #[trigger] r@[i] == bytes@[i] && r@[i] != 0,
{
    let mut out: Vec<u8> = Vec::new();
    let mut i: usize = 0;
    let n = bytes.len();
    while i < n
        invariant
            i <= n,
            n == bytes@.len(),
            out@.len() == i,
            forall|j: int| 0 <= j < i ==> #[trigger] out@[j] == bytes@[j] && out@[j] != 0,
        decreases n - i,
    {
        let b = bytes[i];
        if b == 0 {
            return out;
        }
        out.push(b);
        i = i + 1;
    }
    out
}

} // verus!
