//! Primitive big-endian reads from a byte slice.
//!
//! Every multi-byte field of an MP4 box is stored big-endian.  A cursor is a
//! `u64` position into the slice; each reader either returns the value and
//! advances the cursor, or reports [`Error::Io`] when the slice ends before
//! the requested bytes, leaving the cursor untouched.

use crate::error::Error;
use vstd::prelude::*;

verus! {

/// The 16-bit big-endian integer stored at byte offset `i` of `s`.
pub open spec fn be16(s: Seq<u8>, i: int) -> int {
    (s[i] as int) * 0x100 + (s[i + 1] as int)
}

/// The 24-bit big-endian integer stored at byte offset `i` of `s`.
pub open spec fn be24(s: Seq<u8>, i: int) -> int {
    ((s[i] as int) * 0x100 + (s[i + 1] as int)) * 0x100 + (s[i + 2] as int)
}

/// The 32-bit big-endian integer stored at byte offset `i` of `s`.
pub open spec fn be32(s: Seq<u8>, i: int) -> int {
    (((s[i] as int) * 0x100 + (s[i + 1] as int)) * 0x100 + (s[i + 2] as int)) * 0x100 + (s[i
        + 3] as int)
}

/// The 64-bit big-endian integer stored at byte offset `i` of `s`.
pub open spec fn be64(s: Seq<u8>, i: int) -> int {
    be32(s, i) * 0x100000000 + be32(s, i + 4)
}

/// The 32-bit big-endian two's-complement integer stored at byte offset `i` of `s`.
pub open spec fn sbe32(s: Seq<u8>, i: int) -> int {
    if be32(s, i) < 0x80000000 {
        be32(s, i)
    } else {
        be32(s, i) - 0x100000000
    }
}

/// The 16-bit big-endian two's-complement integer stored at byte offset `i` of `s`.
pub open spec fn sbe16(s: Seq<u8>, i: int) -> int {
    if be16(s, i) < 0x8000 {
        be16(s, i)
    } else {
        be16(s, i) - 0x10000
    }
}

/// The 8-bit two's-complement integer stored at byte offset `i` of `s`.
pub open spec fn sbe8(s: Seq<u8>, i: int) -> int {
    if s[i] < 0x80 {
        s[i] as int
    } else {
        s[i] as int - 0x100
    }
}

/// True when `n` more bytes are available at position `pos` of `data`.
pub fn has_bytes(data: &[u8], pos: u64, n: u64) -> (r: bool)
    ensures
        r == (pos + n <= data@.len()),
        data@.len() <= u64::MAX,
{
    let len: u64 = data.len() as u64;
    pos <= len && n <= len - pos
}

pub fn read_u8(data: &[u8], pos: &mut u64) -> (r: Result<u8, Error>)
    ensures
        match r {
            Ok(v) => *old(pos) + 1 <= data@.len() && *final(pos) == *old(pos) + 1 && v == data@[*old(
                pos,
            ) as int],
            Err(e) => e is Io && *final(pos) == *old(pos) && *old(pos) + 1 > data@.len(),
        },
{
    let len: u64 = data.len() as u64;
    if *pos >= len {
        return Err(Error::Io);
    }
    let v = data[*pos as usize];
    *pos = *pos + 1;
    Ok(v)
}

pub fn read_u16(data: &[u8], pos: &mut u64) -> (r: Result<u16, Error>)
    ensures
        match r {
            Ok(v) => *old(pos) + 2 <= data@.len() && *final(pos) == *old(pos) + 2 && v as int
                == be16(data@, *old(pos) as int),
            Err(e) => e is Io && *final(pos) == *old(pos) && *old(pos) + 2 > data@.len(),
        },
{
    if !has_bytes(data, *pos, 2) {
        return Err(Error::Io);
    }
    let i = *pos as usize;
    let v: u16 = (data[i] as u16) * 0x100 + (data[i + 1] as u16);
    *pos = *pos + 2;
    Ok(v)
}

pub fn read_u24(data: &[u8], pos: &mut u64) -> (r: Result<u32, Error>)
    ensures
        match r {
            Ok(v) => *old(pos) + 3 <= data@.len() && *final(pos) == *old(pos) + 3 && v as int
                == be24(data@, *old(pos) as int),
            Err(e) => e is Io && *final(pos) == *old(pos) && *old(pos) + 3 > data@.len(),
        },
{
    if !has_bytes(data, *pos, 3) {
        return Err(Error::Io);
    }
    let i = *pos as usize;
    let v: u32 = ((data[i] as u32) * 0x100 + (data[i + 1] as u32)) * 0x100 + (data[i + 2] as u32);
    *pos = *pos + 3;
    Ok(v)
}

pub fn read_u32(data: &[u8], pos: &mut u64) -> (r: Result<u32, Error>)
    ensures
        match r {
            Ok(v) => *old(pos) + 4 <= data@.len() && *final(pos) == *old(pos) + 4 && v as int
                == be32(data@, *old(pos) as int),
            Err(e) => e is Io && *final(pos) == *old(pos) && *old(pos) + 4 > data@.len(),
        },
{
    if !has_bytes(data, *pos, 4) {
        return Err(Error::Io);
    }
    let i = *pos as usize;
    let v: u32 = (((data[i] as u32) * 0x100 + (data[i + 1] as u32)) * 0x100 + (data[i
        + 2] as u32)) * 0x100 + (data[i + 3] as u32);
    *pos = *pos + 4;
    Ok(v)
}

pub fn read_u64(data: &[u8], pos: &mut u64) -> (r: Result<u64, Error>)
    ensures
        match r {
            Ok(v) => *old(pos) + 8 <= data@.len() && *final(pos) == *old(pos) + 8 && v as int
                == be64(data@, *old(pos) as int),
            Err(e) => e is Io && *final(pos) == *old(pos) && *old(pos) + 8 > data@.len(),
        },
{
    if !has_bytes(data, *pos, 8) {
        return Err(Error::Io);
    }
    let hi = match read_u32(data, pos) {
        Ok(v) => v,
        Err(e) => {
            return Err(e);
        },
    };
    let lo = match read_u32(data, pos) {
        Ok(v) => v,
        Err(e) => {
            return Err(e);
        },
    };
    Ok((hi as u64) * 0x100000000 + (lo as u64))
}

pub fn read_i8(data: &[u8], pos: &mut u64) -> (r: Result<i8, Error>)
    ensures
        match r {
            Ok(v) => *old(pos) + 1 <= data@.len() && *final(pos) == *old(pos) + 1 && v as int
                == sbe8(data@, *old(pos) as int),
            Err(e) => e is Io && *final(pos) == *old(pos) && *old(pos) + 1 > data@.len(),
        },
{
    let u = match read_u8(data, pos) {
        Ok(v) => v,
        Err(e) => {
            return Err(e);
        },
    };
    if u < 0x80 {
        Ok(u as i8)
    } else {
        let mag: u8 = 0xff - u;
        Ok(-(mag as i8) - 1)
    }
}

pub fn read_i16(data: &[u8], pos: &mut u64) -> (r: Result<i16, Error>)
    ensures
        match r {
            Ok(v) => *old(pos) + 2 <= data@.len() && *final(pos) == *old(pos) + 2 && v as int
                == sbe16(data@, *old(pos) as int),
            Err(e) => e is Io && *final(pos) == *old(pos) && *old(pos) + 2 > data@.len(),
        },
{
    let u = match read_u16(data, pos) {
        Ok(v) => v,
        Err(e) => {
            return Err(e);
        },
    };
    if u < 0x8000 {
        Ok(u as i16)
    } else {
        let mag: u16 = 0xffff - u;
        Ok(-(mag as i16) - 1)
    }
}

pub fn read_i32(data: &[u8], pos: &mut u64) -> (r: Result<i32, Error>)
    ensures
        match r {
            Ok(v) => *old(pos) + 4 <= data@.len() && *final(pos) == *old(pos) + 4 && v as int
                == sbe32(data@, *old(pos) as int),
            Err(e) => e is Io && *final(pos) == *old(pos) && *old(pos) + 4 > data@.len(),
        },
{
    let u = match read_u32(data, pos) {
        Ok(v) => v,
        Err(e) => {
            return Err(e);
        },
    };
    if u < 0x80000000 {
        Ok(u as i32)
    } else {
        let mag: u32 = 0xffffffff - u;
        Ok(-(mag as i32) - 1)
    }
}

/// Moves the cursor forward over `n` bytes that must be present, without
/// decoding them.
pub fn skip_bytes(data: &[u8], pos: &mut u64, n: u64) -> (r: Result<(), Error>)
    ensures
        match r {
            Ok(()) => *old(pos) + n <= data@.len() && *final(pos) == *old(pos) + n,
            Err(e) => e is Io && *final(pos) == *old(pos) && *old(pos) + n > data@.len(),
        },
{
    let len: u64 = data.len() as u64;
    if *pos > len || n > len - *pos {
        return Err(Error::Io);
    }
    *pos = *pos + n;
    Ok(())
}

/// Copies `n` bytes starting at `pos` out of `data`.
pub fn copy_bytes(data: &[u8], pos: u64, n: u64) -> (r: Result<Vec<u8>, Error>)
    ensures
        match r {
            Ok(v) => pos + n <= data@.len() && data@.len() <= u64::MAX && v@ == data@.subrange(
                pos as int,
                pos + n,
            ),
            Err(e) => e is Io && pos + n > data@.len(),
        },
{
    if !has_bytes(data, pos, n) {
        return Err(Error::Io);
    }
    let dlen: u64 = data.len() as u64;
    let mut out: Vec<u8> = Vec::new();
    let mut k: u64 = 0;
    while k < n
        invariant
            k <= n,
            pos + n <= dlen,
            dlen == data@.len(),
            out@ == data@.subrange(pos as int, pos + k),
        decreases n - k,
    {
        out.push(data[(pos + k) as usize]);
        proof {
            assert(data@.subrange(pos as int, pos + k + 1) =~= data@.subrange(pos as int, pos + k)
                + seq![data@[pos + k]]);
        }
        k = k + 1;
    }
    Ok(out)
}

} // verus!
