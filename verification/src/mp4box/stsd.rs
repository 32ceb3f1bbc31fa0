//! `stsd` — the sample-description box: the codec-specific sample entry of
//! a track.  The core reads it only through two narrow views: which kind of
//! track the entry implies, and the raw codec configuration it carries.

use crate::byteio::read_u32;
use crate::error::Error;
use crate::mp4box::av01::Av01Box;
use crate::mp4box::avc1::Avc1Box;
use crate::mp4box::hevc::HevcBox;
use crate::mp4box::mp4a::Mp4aBox;
use crate::mp4box::tx3g::Tx3gBox;
use crate::mp4box::vp08::Vp08Box;
use crate::mp4box::vp09::Vp09Box;
use crate::mp4box::{
    box_start, child_end, read_box_header_ext, seek_end, BoxHeader, BoxType, Mp4Box, ReadBox,
};
use crate::strutil::{push_decimal, push_hex_byte_upper, string_push_char};
use crate::types::{FourCC, TrackKind};
use vstd::prelude::*;

verus! {

/// The decoded sample entry, one variant per recognized codec, with an
/// explicit fallback keeping the FourCC of an unrecognized one.
#[derive(Debug, Clone, PartialEq, Eq)]
pub enum StsdBoxContent {
    Av01(Av01Box),
    Avc1(Avc1Box),
    Hvc1(HevcBox),
    Hev1(HevcBox),
    Vp08(Vp08Box),
    Vp09(Vp09Box),
    Mp4a(Mp4aBox),
    Tx3g(Tx3gBox),
    Unknown(FourCC),
}

impl StsdBoxContent {
    /// The bit depth of the video stream, where the configuration record
    /// states it.
    pub fn bit_depth(&self) -> (r: Option<u8>)
        ensures
            match self {
                StsdBoxContent::Av01(b) => r == Some(b.av1c.contents.bit_depth),
                StsdBoxContent::Vp08(b) => r == Some(b.vpcc.contents.bit_depth),
                StsdBoxContent::Vp09(b) => r == Some(b.vpcc.contents.bit_depth),
                _ => r is None,
            },
    {
        match self {
            StsdBoxContent::Av01(bx) => Some(bx.av1c.contents.bit_depth),
            StsdBoxContent::Avc1(_) => None,
            StsdBoxContent::Hvc1(_) => None,
            StsdBoxContent::Hev1(_) => None,
            StsdBoxContent::Vp08(bx) => Some(bx.vpcc.contents.bit_depth),
            StsdBoxContent::Vp09(bx) => Some(bx.vpcc.contents.bit_depth),
            StsdBoxContent::Mp4a(_) => None,
            StsdBoxContent::Tx3g(_) => None,
            StsdBoxContent::Unknown(_) => None,
        }
    }

    /// The raw codec configuration record, cloned out of the entry, where
    /// the codec carries one.
    pub fn raw_codec_config(&self) -> (r: Option<Vec<u8>>)
        ensures
            match r {
                Some(v) => stsd_raw_config(self) == Some(v@),
                None => stsd_raw_config(self) is None,
            },
    {
        match self {
            StsdBoxContent::Av01(bx) => Some(clone_bytes(&bx.av1c.raw)),
            StsdBoxContent::Avc1(bx) => Some(clone_bytes(&bx.avcc.raw)),
            StsdBoxContent::Hvc1(bx) => Some(clone_bytes(&bx.hvcc.raw)),
            StsdBoxContent::Hev1(bx) => Some(clone_bytes(&bx.hvcc.raw)),
            StsdBoxContent::Vp08(bx) => Some(clone_bytes(&bx.vpcc.raw)),
            StsdBoxContent::Vp09(bx) => Some(clone_bytes(&bx.vpcc.raw)),
            StsdBoxContent::Mp4a(_) => None,
            StsdBoxContent::Tx3g(_) => None,
            StsdBoxContent::Unknown(_) => None,
        }
    }

    /// The RFC 6381 codec string for the entry, where one is defined.
    pub fn codec_string(&self) -> (r: Option<String>)
        ensures
            r is Some <==> !(self is Mp4a || self is Tx3g || self is Unknown),
    {
        match self {
            StsdBoxContent::Av01(bx) => {
                let mut s = String::new();
                s.append("av01.");
                push_decimal(&mut s, bx.av1c.contents.profile as u64);
                string_push_char(&mut s, '.');
                push_two_digits(&mut s, bx.av1c.contents.level);
                if bx.av1c.contents.tier == 0 {
                    string_push_char(&mut s, 'M');
                } else {
                    string_push_char(&mut s, 'H');
                }
                string_push_char(&mut s, '.');
                push_two_digits(&mut s, bx.av1c.contents.bit_depth);
                Some(s)
            },
            StsdBoxContent::Avc1(bx) => {
                let mut s = String::new();
                s.append("avc1.");
                push_hex_byte_upper(&mut s, bx.avcc.contents.avc_profile_indication);
                push_hex_byte_upper(&mut s, bx.avcc.contents.profile_compatibility);
                push_hex_byte_upper(&mut s, bx.avcc.contents.avc_level_indication);
                Some(s)
            },
            StsdBoxContent::Hvc1(bx) => {
                let mut s = String::new();
                s.append("hvc1");
                push_hevc_codec_details(&mut s, &bx.hvcc.contents);
                Some(s)
            },
            StsdBoxContent::Hev1(bx) => {
                let mut s = String::new();
                s.append("hev1");
                push_hevc_codec_details(&mut s, &bx.hvcc.contents);
                Some(s)
            },
            StsdBoxContent::Vp08(bx) => {
                let mut s = String::new();
                s.append("vp08.");
                push_two_digits(&mut s, bx.vpcc.contents.profile);
                string_push_char(&mut s, '.');
                push_two_digits(&mut s, bx.vpcc.contents.level);
                string_push_char(&mut s, '.');
                push_two_digits(&mut s, bx.vpcc.contents.bit_depth);
                Some(s)
            },
            StsdBoxContent::Vp09(bx) => {
                let mut s = String::new();
                s.append("vp09.");
                push_two_digits(&mut s, bx.vpcc.contents.profile);
                string_push_char(&mut s, '.');
                push_two_digits(&mut s, bx.vpcc.contents.level);
                string_push_char(&mut s, '.');
                push_two_digits(&mut s, bx.vpcc.contents.bit_depth);
                Some(s)
            },
            StsdBoxContent::Mp4a(_) => None,
            StsdBoxContent::Tx3g(_) => None,
            StsdBoxContent::Unknown(_) => None,
        }
    }
}

/// The raw codec configuration bytes a sample entry carries, where the
/// codec has a configuration record.
pub open spec fn stsd_raw_config(c: &StsdBoxContent) -> Option<Seq<u8>> {
    match c {
        StsdBoxContent::Av01(b) => Some(b.av1c.raw@),
        StsdBoxContent::Avc1(b) => Some(b.avcc.raw@),
        StsdBoxContent::Hvc1(b) => Some(b.hvcc.raw@),
        StsdBoxContent::Hev1(b) => Some(b.hvcc.raw@),
        StsdBoxContent::Vp08(b) => Some(b.vpcc.raw@),
        StsdBoxContent::Vp09(b) => Some(b.vpcc.raw@),
        StsdBoxContent::Mp4a(_) => None,
        StsdBoxContent::Tx3g(_) => None,
        StsdBoxContent::Unknown(_) => None,
    }
}

/// Clones a byte buffer.
fn clone_bytes(src: &Vec<u8>) -> (r: Vec<u8>)
    ensures
        r@ == src@,
{
    let mut out: Vec<u8> = Vec::new();
    let mut i: usize = 0;
    let n = src.len();
    while i < n
        invariant
            i <= n,
            n == src@.len(),
            out@ == src@.take(i as int),
        decreases n - i,
    {
        let b = src[i];
        out.push(b);
        proof {
            assert(out@ =~= src@.take(i as int + 1));
        }
        i = i + 1;
    }
    proof {
        assert(src@.take(n as int) =~= src@);
    }
    out
}

/// Appends a value below 100 as exactly two decimal digits.
fn push_two_digits(s: &mut String, v: u8)
    ensures
        final(s)@ == old(s)@.push(crate::strutil::digit_char_spec(((v / 10) % 10) as int)).push(
            crate::strutil::digit_char_spec((v % 10) as int),
        ),
        final(s)@.len() == old(s)@.len() + 2,
{
    let hi: u8 = (v / 10) % 10;
    let lo: u8 = v % 10;
    string_push_char(s, crate::strutil::digit_char(hi));
    string_push_char(s, crate::strutil::digit_char(lo));
}

/// Appends the profile, compatibility, tier, level and constraint parts of
/// an HEVC codec string.
fn push_hevc_codec_details(
    s: &mut String,
    hvcc: &crate::mp4box::hevc::HevcDecoderConfigurationRecord,
) {
    if hvcc.general_profile_space == 1 {
        s.append(".A");
    } else if hvcc.general_profile_space == 2 {
        s.append(".B");
    } else if hvcc.general_profile_space == 3 {
        s.append(".C");
    }
    string_push_char(s, '.');
    push_decimal(s, hvcc.general_profile_idc as u64);
    string_push_char(s, '.');
    let mut val: u32 = hvcc.general_profile_compatibility_flags;
    let mut reversed: u32 = 0;
    let mut i: u8 = 0;
    while i < 32
        invariant
            i <= 32,
        decreases 32 - i,
    {
        reversed = (reversed % 0x80000000) * 2 + (val % 2);
        if i < 31 {
            val = val / 2;
        }
        i = i + 1;
    }
    push_hex_upper(s, reversed as u64);
    if hvcc.general_tier_flag {
        s.append(".H");
    } else {
        s.append(".L");
    }
    push_decimal(s, hvcc.general_level_idc as u64);
    let c = hvcc.general_constraint_indicator_flag;
    let b0: u8 = ((c / 0x10000000000u64) % 0x100) as u8;
    let b1: u8 = ((c / 0x100000000u64) % 0x100) as u8;
    let b2: u8 = ((c / 0x1000000u64) % 0x100) as u8;
    let b3: u8 = ((c / 0x10000u64) % 0x100) as u8;
    let b4: u8 = ((c / 0x100u64) % 0x100) as u8;
    let b5: u8 = (c % 0x100) as u8;
    let constraint: [u8; 6] = [b0, b1, b2, b3, b4, b5];
    let mut has_byte: bool = false;
    let mut k: usize = 6;
    while k > 0
        invariant
            k <= 6,
        decreases k,
    {
        k = k - 1;
        let v = constraint[k];
        if v > 0 || has_byte {
            string_push_char(s, '.');
            push_hex_upper(s, v as u64);
            has_byte = true;
        }
    }
}

/// Appends the uppercase hexadecimal digits of `n`, without padding.
fn push_hex_upper(s: &mut String, n: u64)
    ensures
        final(s)@.len() > old(s)@.len(),
{
    let mut digits: Vec<char> = Vec::new();
    let mut rest: u64 = n;
    let d0: u64 = rest % 16;
    digits.push(crate::strutil::hex_char_upper(d0 as u8));
    rest = rest / 16;
    while rest > 0
        invariant
            digits@.len() >= 1,
        decreases rest,
    {
        let d: u64 = rest % 16;
        digits.push(crate::strutil::hex_char_upper(d as u8));
        rest = rest / 16;
    }
    let mut k: usize = digits.len();
    while k > 0
        invariant
            k <= digits@.len(),
            digits@.len() >= 1,
            s@.len() == old(s)@.len() + (digits@.len() - k),
        decreases k,
    {
        k = k - 1;
        string_push_char(s, digits[k]);
    }
}

#[derive(Debug, Clone, PartialEq, Eq)]
pub struct StsdBox {
    pub version: u8,
    pub flags: u32,
    pub contents: StsdBoxContent,
}

/// The track kind a sample entry implies: every recognized video codec
/// yields a video track, `mp4a` an audio track, `tx3g` a subtitle track,
/// and an unrecognized entry none.
pub open spec fn stsd_kind(c: &StsdBoxContent) -> Option<TrackKind> {
    match c {
        StsdBoxContent::Av01(_)
        | StsdBoxContent::Avc1(_)
        | StsdBoxContent::Hvc1(_)
        | StsdBoxContent::Hev1(_)
        | StsdBoxContent::Vp08(_)
        | StsdBoxContent::Vp09(_) => Some(TrackKind::Video),
        StsdBoxContent::Mp4a(_) => Some(TrackKind::Audio),
        StsdBoxContent::Tx3g(_) => Some(TrackKind::Subtitle),
        StsdBoxContent::Unknown(_) => None,
    }
}

impl StsdBox {
    /// The track kind the sample entry implies.
    pub fn kind(&self) -> (r: Option<TrackKind>)
        ensures
            r == stsd_kind(&self.contents),
    {
        match &self.contents {
            StsdBoxContent::Av01(_)
            | StsdBoxContent::Avc1(_)
            | StsdBoxContent::Hev1(_)
            | StsdBoxContent::Hvc1(_)
            | StsdBoxContent::Vp08(_)
            | StsdBoxContent::Vp09(_) => Some(TrackKind::Video),
            StsdBoxContent::Mp4a(_) => Some(TrackKind::Audio),
            StsdBoxContent::Tx3g(_) => Some(TrackKind::Subtitle),
            StsdBoxContent::Unknown(_) => None,
        }
    }

    pub fn get_type(&self) -> (t: BoxType)
        ensures
            t == BoxType::StsdBox,
    {
        BoxType::StsdBox
    }

    pub fn get_size(&self) -> (s: u64)
        requires
            self.size_spec() <= u64::MAX,
        ensures
            s as int == self.size_spec(),
    {
        let inner: u64 = match &self.contents {
            StsdBoxContent::Av01(b) => b.get_size(),
            StsdBoxContent::Avc1(b) => b.get_size(),
            StsdBoxContent::Hvc1(b) => b.box_size(),
            StsdBoxContent::Hev1(b) => b.box_size(),
            StsdBoxContent::Vp08(b) => b.get_size(),
            StsdBoxContent::Vp09(b) => b.get_size(),
            StsdBoxContent::Mp4a(b) => b.get_size(),
            StsdBoxContent::Tx3g(b) => b.get_size(),
            StsdBoxContent::Unknown(_) => 0,
        };
        8 + 4 + 4 + inner
    }
}

impl Mp4Box for StsdBox {
    open spec fn size_spec(&self) -> int {
        8 + 4 + 4 + match self.contents {
            StsdBoxContent::Av01(b) => b.size_spec(),
            StsdBoxContent::Avc1(b) => b.size_spec(),
            StsdBoxContent::Hvc1(b) => b.size_spec(),
            StsdBoxContent::Hev1(b) => b.size_spec(),
            StsdBoxContent::Vp08(b) => b.size_spec(),
            StsdBoxContent::Vp09(b) => b.size_spec(),
            StsdBoxContent::Mp4a(b) => b.size_spec(),
            StsdBoxContent::Tx3g(b) => b.size_spec(),
            StsdBoxContent::Unknown(_) => 0int,
        }
    }

    proof fn size_spec_bounds(&self) {
        match self.contents {
            StsdBoxContent::Av01(b) => b.size_spec_bounds(),
            StsdBoxContent::Avc1(b) => b.size_spec_bounds(),
            StsdBoxContent::Hvc1(b) => b.size_spec_bounds(),
            StsdBoxContent::Hev1(b) => b.size_spec_bounds(),
            StsdBoxContent::Vp08(b) => b.size_spec_bounds(),
            StsdBoxContent::Vp09(b) => b.size_spec_bounds(),
            StsdBoxContent::Mp4a(b) => b.size_spec_bounds(),
            StsdBoxContent::Tx3g(b) => b.size_spec_bounds(),
            StsdBoxContent::Unknown(_) => {},
        }
    }

    fn box_type(&self) -> (t: BoxType) {
        self.get_type()
    }

    fn box_size(&self) -> (s: u64) {
        self.get_size()
    }
}

impl ReadBox for StsdBox {
    /// Reads the entry count, then decodes the first sample entry by its
    /// FourCC; an unrecognized codec is kept as `Unknown`.
    fn read_box(data: &[u8], pos: &mut u64, size: u64) -> (r: Result<Self, Error>)
        ensures
            r is Ok ==> *final(pos) == *old(pos) - 8 + size,
    {
        let start = box_start(*pos);
        if size > u64::MAX - start {
            return Err(Error::MalformedContainer("box end does not fit in 64 bits"));
        }
        let end: u64 = start + size;
        let (version, flags) = match read_box_header_ext(data, pos) {
            Ok(vf) => vf,
            Err(e) => {
                return Err(e);
            },
        };
        match read_u32(data, pos) {
            Ok(_) => {},
            Err(e) => {
                return Err(e);
            },
        }
        let header = match BoxHeader::read(data, pos) {
            Ok(h) => h,
            Err(e) => {
                return Err(e);
            },
        };
        match child_end(*pos, header.size, end) {
            Ok(_) => {},
            Err(e) => {
                return Err(e);
            },
        }
        let contents: StsdBoxContent = match header.name {
            BoxType::Av01Box => {
                match Av01Box::read_box(data, pos, header.size) {
                    Ok(b) => StsdBoxContent::Av01(b),
                    Err(e) => {
                        return Err(e);
                    },
                }
            },
            BoxType::Avc1Box => {
                match Avc1Box::read_box(data, pos, header.size) {
                    Ok(b) => StsdBoxContent::Avc1(b),
                    Err(e) => {
                        return Err(e);
                    },
                }
            },
            BoxType::Hvc1Box => {
                match HevcBox::read_box(data, pos, header.size) {
                    Ok(b) => StsdBoxContent::Hvc1(b),
                    Err(e) => {
                        return Err(e);
                    },
                }
            },
            BoxType::Hev1Box => {
                match HevcBox::read_box(data, pos, header.size) {
                    Ok(b) => StsdBoxContent::Hev1(b),
                    Err(e) => {
                        return Err(e);
                    },
                }
            },
            BoxType::Vp08Box => {
                match Vp08Box::read_box(data, pos, header.size) {
                    Ok(b) => StsdBoxContent::Vp08(b),
                    Err(e) => {
                        return Err(e);
                    },
                }
            },
            BoxType::Vp09Box => {
                match Vp09Box::read_box(data, pos, header.size) {
                    Ok(b) => StsdBoxContent::Vp09(b),
                    Err(e) => {
                        return Err(e);
                    },
                }
            },
            BoxType::Mp4aBox => {
                match Mp4aBox::read_box(data, pos, header.size) {
                    Ok(b) => StsdBoxContent::Mp4a(b),
                    Err(e) => {
                        return Err(e);
                    },
                }
            },
            BoxType::Tx3gBox => {
                match Tx3gBox::read_box(data, pos, header.size) {
                    Ok(b) => StsdBoxContent::Tx3g(b),
                    Err(e) => {
                        return Err(e);
                    },
                }
            },
            _ => StsdBoxContent::Unknown(FourCC::from_box_type(header.name)),
        };
        match seek_end(pos, start, size) {
            Ok(()) => {},
            Err(e) => {
                return Err(e);
            },
        }
        Ok(StsdBox { version, flags, contents })
    }
}

} // verus!
