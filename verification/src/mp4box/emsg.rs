//! `emsg` — the event-message box of DASH streams: a scheme, a value, the
//! event timing, and opaque message bytes.

use crate::byteio::{copy_bytes, read_u32, read_u64, read_u8};
use crate::error::Error;
use crate::mp4box::{box_start, read_box_header_ext, seek_end, BoxType, Mp4Box, ReadBox};
use crate::strutil::utf8_checked;
use vstd::prelude::*;

verus! {

#[derive(Debug, Clone, PartialEq, Eq)]
pub struct EmsgBox {
    pub version: u8,
    pub flags: u32,
    pub timescale: u32,
    pub presentation_time: Option<u64>,
    pub presentation_time_delta: Option<u32>,
    pub event_duration: u32,
    pub id: u32,
    pub scheme_id_uri: String,
    pub value: String,
    pub message_data: Vec<u8>,
}

impl EmsgBox {
    pub fn get_type(&self) -> (t: BoxType)
        ensures
            t == BoxType::EmsgBox,
    {
        BoxType::EmsgBox
    }

    /// Bytes taken by the timing fields: the 64-bit presentation time of
    /// version 1, or the 32-bit delta of version 0, plus the other fields.
    pub fn time_size(version: u8) -> (s: u64)
        ensures
            s == (if version == 1 {
                16int
            } else {
                12int
            }),
    {
        if version == 1 {
            16
        } else {
            12
        }
    }
}

impl Mp4Box for EmsgBox {
    open spec fn size_spec(&self) -> int {
        8 + 4 + 4 + (if self.version == 1 {
            16int
        } else {
            12int
        }) + (self.scheme_id_uri@.len() + 1) + (self.value@.len() + 1) + self.message_data@.len()
    }

    proof fn size_spec_bounds(&self) {
    }

    fn box_type(&self) -> (t: BoxType) {
        self.get_type()
    }

    fn box_size(&self) -> (s: u64) {
        8 + 4 + 4 + EmsgBox::time_size(self.version) + (
        self.scheme_id_uri.as_str().unicode_len() as u64) + 1 + (
        self.value.as_str().unicode_len() as u64) + 1 + (self.message_data.len() as u64)
    }
}

impl ReadBox for EmsgBox {
    /// Decodes the version-dependent field order, the two NUL-terminated
    /// strings, and the message bytes filling the rest of the box.
    fn read_box(data: &[u8], pos: &mut u64, size: u64) -> (r: Result<Self, Error>)
        ensures
            r is Ok ==> *final(pos) == *old(pos) - 8 + size,
    {
        let start = box_start(*pos);
        let (version, flags) = match read_box_header_ext(data, pos) {
            Ok(vf) => vf,
            Err(e) => {
                return Err(e);
            },
        };
        let timescale: u32;
        let presentation_time: Option<u64>;
        let presentation_time_delta: Option<u32>;
        let event_duration: u32;
        let id: u32;
        let scheme_id_uri: String;
        let value: String;
        let uri_bytes: u64;
        let value_bytes: u64;
        if version == 0 {
            let (s1, n1) = match read_nul_terminated_string(data, pos) {
                Ok(v) => v,
                Err(e) => {
                    return Err(e);
                },
            };
            let (s2, n2) = match read_nul_terminated_string(data, pos) {
                Ok(v) => v,
                Err(e) => {
                    return Err(e);
                },
            };
            scheme_id_uri = s1;
            value = s2;
            uri_bytes = n1;
            value_bytes = n2;
            timescale = match read_u32(data, pos) {
                Ok(v) => v,
                Err(e) => {
                    return Err(e);
                },
            };
            presentation_time = None;
            presentation_time_delta = match read_u32(data, pos) {
                Ok(v) => Some(v),
                Err(e) => {
                    return Err(e);
                },
            };
            event_duration = match read_u32(data, pos) {
                Ok(v) => v,
                Err(e) => {
                    return Err(e);
                },
            };
            id = match read_u32(data, pos) {
                Ok(v) => v,
                Err(e) => {
                    return Err(e);
                },
            };
        } else if version == 1 {
            timescale = match read_u32(data, pos) {
                Ok(v) => v,
                Err(e) => {
                    return Err(e);
                },
            };
            presentation_time = match read_u64(data, pos) {
                Ok(v) => Some(v),
                Err(e) => {
                    return Err(e);
                },
            };
            presentation_time_delta = None;
            event_duration = match read_u32(data, pos) {
                Ok(v) => v,
                Err(e) => {
                    return Err(e);
                },
            };
            id = match read_u32(data, pos) {
                Ok(v) => v,
                Err(e) => {
                    return Err(e);
                },
            };
            let (s1, n1) = match read_nul_terminated_string(data, pos) {
                Ok(v) => v,
                Err(e) => {
                    return Err(e);
                },
            };
            let (s2, n2) = match read_nul_terminated_string(data, pos) {
                Ok(v) => v,
                Err(e) => {
                    return Err(e);
                },
            };
            scheme_id_uri = s1;
            value = s2;
            uri_bytes = n1;
            value_bytes = n2;
        } else {
            return Err(Error::MalformedContainer("version must be 0 or 1"));
        }
        let fixed: u64 = 8 + 4 + 4 + EmsgBox::time_size(version);
        if uri_bytes > u64::MAX - value_bytes || fixed > u64::MAX - (uri_bytes + value_bytes) {
            return Err(Error::MalformedContainer("emsg header too large"));
        }
        let without_message: u64 = fixed + uri_bytes + value_bytes;
        if size < without_message {
            return Err(Error::MalformedContainer("emsg message size underflow"));
        }
        let message_size: u64 = size - without_message;
        let message_data = match copy_bytes(data, *pos, message_size) {
            Ok(v) => v,
            Err(e) => {
                return Err(e);
            },
        };
        match seek_end(pos, start, size) {
            Ok(()) => {},
            Err(e) => {
                return Err(e);
            },
        }
        Ok(
            EmsgBox {
                version,
                flags,
                timescale,
                presentation_time,
                presentation_time_delta,
                event_duration,
                id,
                scheme_id_uri,
                value,
                message_data,
            },
        )
    }
}

/// Reads bytes up to and including a NUL terminator and decodes them as
/// UTF-8; reports the decoded string and how many bytes were consumed,
/// terminator included.
pub fn read_nul_terminated_string(data: &[u8], pos: &mut u64) -> (r: Result<(String, u64), Error>)
    ensures
        match r {
            Ok(sn) => *final(pos) == *old(pos) + sn.1 && sn.1 >= 1 && *final(pos) <= data@.len(),
            Err(e) => e is Io || e is MalformedContainer,
        },
{
    let mut bytes: Vec<u8> = Vec::new();
    let mut n: u64 = 0;
    loop
        invariant
            *pos == *old(pos) + n,
            *pos <= data@.len() || n == 0,
            n >= 1 ==> *pos <= data@.len(),
        ensures
            *pos == *old(pos) + n,
            n >= 1,
            *pos <= data@.len(),
        decreases data@.len() - *pos,
    {
        let byte = match read_u8(data, pos) {
            Ok(v) => v,
            Err(e) => {
                return Err(e);
            },
        };
        n = n + 1;
        if byte == 0 {
            break ;
        }
        bytes.push(byte);
    }
    match utf8_checked(bytes) {
        Some(s) => Ok((s, n)),
        None => Err(Error::MalformedContainer("invalid utf8")),
    }
}

} // verus!
