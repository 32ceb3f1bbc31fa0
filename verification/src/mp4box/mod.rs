//! ISO-MP4 boxes (atoms) and the machinery shared by all of them:
//! the box-type code, the box header with its 64-bit size escape, and the
//! traits every concrete box implements.
//!
//! A box is a length-prefixed node: 4-byte big-endian size (including the
//! 8-byte header) followed by a 4-byte type code.  A size field of 1 escapes
//! to a 64-bit size stored just after the type code; the stored value counts
//! from the box start, and the reader normalizes it by subtracting the extra
//! 8 bytes so that `start + size` is the box end for every header shape.

use crate::byteio::{be24, be32, be64, read_u24, read_u32, read_u64, read_u8};
use crate::error::Error;
use vstd::prelude::*;

pub mod av01;
pub mod avc1;
pub mod co64;
pub mod edts;
pub mod elst;
pub mod emsg;
pub mod ftyp;
pub mod hdlr;
pub mod mdhd;
pub mod smhd;
pub mod vmhd;
pub mod vp08;
pub mod vp09;
pub mod vpcc;
pub mod ctts;
pub mod data;
pub mod dinf;
pub mod mdia;
pub mod mehd;
pub mod meta;
pub mod minf;
pub mod hevc;
pub mod ilst;
pub mod moof;
pub mod mp4a;
pub mod mvex;
pub mod moov;
pub mod mvhd;
pub mod tkhd;
pub mod mfhd;
pub mod tfdt;
pub mod tfhd;
pub mod traf;
pub mod trak;
pub mod tx3g;
pub mod udta;
pub mod trex;
pub mod trun;
pub mod stco;
pub mod stbl;
pub mod stsc;
pub mod stsd;
pub mod stss;
pub mod stsz;
pub mod stts;

verus! {

/// Byte length of the plain box header: 32-bit size plus 32-bit type code.
pub const HEADER_SIZE: u64 = 8;

/// Byte length of the full-box extension: 8-bit version plus 24-bit flags.
pub const HEADER_EXT_SIZE: u64 = 4;

/// The type code of a box: one variant per recognized FourCC, with an
/// explicit fallback carrying the raw 32-bit value of an unknown code.
#[derive(Debug, Clone, Copy, PartialEq, Eq, Structural)]
pub enum BoxType {
    FtypBox,
    MvhdBox,
    MfhdBox,
    FreeBox,
    MdatBox,
    MoovBox,
    MvexBox,
    MehdBox,
    TrexBox,
    EmsgBox,
    MoofBox,
    TkhdBox,
    TfhdBox,
    TfdtBox,
    EdtsBox,
    MdiaBox,
    ElstBox,
    MdhdBox,
    HdlrBox,
    MinfBox,
    VmhdBox,
    StblBox,
    StsdBox,
    SttsBox,
    CttsBox,
    StssBox,
    StscBox,
    StszBox,
    StcoBox,
    Co64Box,
    TrakBox,
    TrafBox,
    TrunBox,
    UdtaBox,
    MetaBox,
    DinfBox,
    DrefBox,
    UrlBox,
    SmhdBox,
    Avc1Box,
    AvcCBox,
    Av01Box,
    Av1CBox,
    Hev1Box,
    Hvc1Box,
    HvcCBox,
    Mp4aBox,
    EsdsBox,
    Tx3gBox,
    VpccBox,
    Vp08Box,
    Vp09Box,
    DataBox,
    IlstBox,
    NameBox,
    DayBox,
    CovrBox,
    DescBox,
    WideBox,
    WaveBox,
    UnknownBox(u32),
}

/// The 32-bit FourCC value of a box type.
pub open spec fn box_type_code(t: BoxType) -> int {
    match t {
        BoxType::FtypBox => 0x66747970,
        BoxType::MvhdBox => 0x6d766864,
        BoxType::MfhdBox => 0x6d666864,
        BoxType::FreeBox => 0x66726565,
        BoxType::MdatBox => 0x6d646174,
        BoxType::MoovBox => 0x6d6f6f76,
        BoxType::MvexBox => 0x6d766578,
        BoxType::MehdBox => 0x6d656864,
        BoxType::TrexBox => 0x74726578,
        BoxType::EmsgBox => 0x656d7367,
        BoxType::MoofBox => 0x6d6f6f66,
        BoxType::TkhdBox => 0x746b6864,
        BoxType::TfhdBox => 0x74666864,
        BoxType::TfdtBox => 0x74666474,
        BoxType::EdtsBox => 0x65647473,
        BoxType::MdiaBox => 0x6d646961,
        BoxType::ElstBox => 0x656c7374,
        BoxType::MdhdBox => 0x6d646864,
        BoxType::HdlrBox => 0x68646c72,
        BoxType::MinfBox => 0x6d696e66,
        BoxType::VmhdBox => 0x766d6864,
        BoxType::StblBox => 0x7374626c,
        BoxType::StsdBox => 0x73747364,
        BoxType::SttsBox => 0x73747473,
        BoxType::CttsBox => 0x63747473,
        BoxType::StssBox => 0x73747373,
        BoxType::StscBox => 0x73747363,
        BoxType::StszBox => 0x7374737A,
        BoxType::StcoBox => 0x7374636F,
        BoxType::Co64Box => 0x636F3634,
        BoxType::TrakBox => 0x7472616b,
        BoxType::TrafBox => 0x74726166,
        BoxType::TrunBox => 0x7472756E,
        BoxType::UdtaBox => 0x75647461,
        BoxType::MetaBox => 0x6d657461,
        BoxType::DinfBox => 0x64696e66,
        BoxType::DrefBox => 0x64726566,
        BoxType::UrlBox => 0x75726C20,
        BoxType::SmhdBox => 0x736d6864,
        BoxType::Avc1Box => 0x61766331,
        BoxType::AvcCBox => 0x61766343,
        BoxType::Av01Box => 0x61763031,
        BoxType::Av1CBox => 0x61763143,
        BoxType::Hev1Box => 0x68657631,
        BoxType::Hvc1Box => 0x68766331,
        BoxType::HvcCBox => 0x68766343,
        BoxType::Mp4aBox => 0x6d703461,
        BoxType::EsdsBox => 0x65736473,
        BoxType::Tx3gBox => 0x74783367,
        BoxType::VpccBox => 0x76706343,
        BoxType::Vp08Box => 0x76703038,
        BoxType::Vp09Box => 0x76703039,
        BoxType::DataBox => 0x64617461,
        BoxType::IlstBox => 0x696c7374,
        BoxType::NameBox => 0xa96e616d,
        BoxType::DayBox => 0xa9646179,
        BoxType::CovrBox => 0x636f7672,
        BoxType::DescBox => 0x64657363,
        BoxType::WideBox => 0x77696465,
        BoxType::WaveBox => 0x77617665,
        BoxType::UnknownBox(c) => c as int,
    }
}

/// The box type that a 32-bit FourCC value decodes to.
pub open spec fn box_type_of(c: int) -> BoxType {
    if c == 0x66747970 {
        BoxType::FtypBox
    } else if c == 0x6d766864 {
        BoxType::MvhdBox
    } else if c == 0x6d666864 {
        BoxType::MfhdBox
    } else if c == 0x66726565 {
        BoxType::FreeBox
    } else if c == 0x6d646174 {
        BoxType::MdatBox
    } else if c == 0x6d6f6f76 {
        BoxType::MoovBox
    } else if c == 0x6d766578 {
        BoxType::MvexBox
    } else if c == 0x6d656864 {
        BoxType::MehdBox
    } else if c == 0x74726578 {
        BoxType::TrexBox
    } else if c == 0x656d7367 {
        BoxType::EmsgBox
    } else if c == 0x6d6f6f66 {
        BoxType::MoofBox
    } else if c == 0x746b6864 {
        BoxType::TkhdBox
    } else if c == 0x74666864 {
        BoxType::TfhdBox
    } else if c == 0x74666474 {
        BoxType::TfdtBox
    } else if c == 0x65647473 {
        BoxType::EdtsBox
    } else if c == 0x6d646961 {
        BoxType::MdiaBox
    } else if c == 0x656c7374 {
        BoxType::ElstBox
    } else if c == 0x6d646864 {
        BoxType::MdhdBox
    } else if c == 0x68646c72 {
        BoxType::HdlrBox
    } else if c == 0x6d696e66 {
        BoxType::MinfBox
    } else if c == 0x766d6864 {
        BoxType::VmhdBox
    } else if c == 0x7374626c {
        BoxType::StblBox
    } else if c == 0x73747364 {
        BoxType::StsdBox
    } else if c == 0x73747473 {
        BoxType::SttsBox
    } else if c == 0x63747473 {
        BoxType::CttsBox
    } else if c == 0x73747373 {
        BoxType::StssBox
    } else if c == 0x73747363 {
        BoxType::StscBox
    } else if c == 0x7374737A {
        BoxType::StszBox
    } else if c == 0x7374636F {
        BoxType::StcoBox
    } else if c == 0x636F3634 {
        BoxType::Co64Box
    } else if c == 0x7472616b {
        BoxType::TrakBox
    } else if c == 0x74726166 {
        BoxType::TrafBox
    } else if c == 0x7472756E {
        BoxType::TrunBox
    } else if c == 0x75647461 {
        BoxType::UdtaBox
    } else if c == 0x6d657461 {
        BoxType::MetaBox
    } else if c == 0x64696e66 {
        BoxType::DinfBox
    } else if c == 0x64726566 {
        BoxType::DrefBox
    } else if c == 0x75726C20 {
        BoxType::UrlBox
    } else if c == 0x736d6864 {
        BoxType::SmhdBox
    } else if c == 0x61766331 {
        BoxType::Avc1Box
    } else if c == 0x61766343 {
        BoxType::AvcCBox
    } else if c == 0x61763031 {
        BoxType::Av01Box
    } else if c == 0x61763143 {
        BoxType::Av1CBox
    } else if c == 0x68657631 {
        BoxType::Hev1Box
    } else if c == 0x68766331 {
        BoxType::Hvc1Box
    } else if c == 0x68766343 {
        BoxType::HvcCBox
    } else if c == 0x6d703461 {
        BoxType::Mp4aBox
    } else if c == 0x65736473 {
        BoxType::EsdsBox
    } else if c == 0x74783367 {
        BoxType::Tx3gBox
    } else if c == 0x76706343 {
        BoxType::VpccBox
    } else if c == 0x76703038 {
        BoxType::Vp08Box
    } else if c == 0x76703039 {
        BoxType::Vp09Box
    } else if c == 0x64617461 {
        BoxType::DataBox
    } else if c == 0x696c7374 {
        BoxType::IlstBox
    } else if c == 0xa96e616d {
        BoxType::NameBox
    } else if c == 0xa9646179 {
        BoxType::DayBox
    } else if c == 0x636f7672 {
        BoxType::CovrBox
    } else if c == 0x64657363 {
        BoxType::DescBox
    } else if c == 0x77696465 {
        BoxType::WideBox
    } else if c == 0x77617665 {
        BoxType::WaveBox
    } else {
        BoxType::UnknownBox(c as u32)
    }
}

impl BoxType {
    /// Decodes a 32-bit FourCC value into a box type.
    pub fn from_u32(c: u32) -> (t: BoxType)
        ensures
            t == box_type_of(c as int),
    {
        match c {
            0x66747970 => BoxType::FtypBox,
            0x6d766864 => BoxType::MvhdBox,
            0x6d666864 => BoxType::MfhdBox,
            0x66726565 => BoxType::FreeBox,
            0x6d646174 => BoxType::MdatBox,
            0x6d6f6f76 => BoxType::MoovBox,
            0x6d766578 => BoxType::MvexBox,
            0x6d656864 => BoxType::MehdBox,
            0x74726578 => BoxType::TrexBox,
            0x656d7367 => BoxType::EmsgBox,
            0x6d6f6f66 => BoxType::MoofBox,
            0x746b6864 => BoxType::TkhdBox,
            0x74666864 => BoxType::TfhdBox,
            0x74666474 => BoxType::TfdtBox,
            0x65647473 => BoxType::EdtsBox,
            0x6d646961 => BoxType::MdiaBox,
            0x656c7374 => BoxType::ElstBox,
            0x6d646864 => BoxType::MdhdBox,
            0x68646c72 => BoxType::HdlrBox,
            0x6d696e66 => BoxType::MinfBox,
            0x766d6864 => BoxType::VmhdBox,
            0x7374626c => BoxType::StblBox,
            0x73747364 => BoxType::StsdBox,
            0x73747473 => BoxType::SttsBox,
            0x63747473 => BoxType::CttsBox,
            0x73747373 => BoxType::StssBox,
            0x73747363 => BoxType::StscBox,
            0x7374737A => BoxType::StszBox,
            0x7374636F => BoxType::StcoBox,
            0x636F3634 => BoxType::Co64Box,
            0x7472616b => BoxType::TrakBox,
            0x74726166 => BoxType::TrafBox,
            0x7472756E => BoxType::TrunBox,
            0x75647461 => BoxType::UdtaBox,
            0x6d657461 => BoxType::MetaBox,
            0x64696e66 => BoxType::DinfBox,
            0x64726566 => BoxType::DrefBox,
            0x75726C20 => BoxType::UrlBox,
            0x736d6864 => BoxType::SmhdBox,
            0x61766331 => BoxType::Avc1Box,
            0x61766343 => BoxType::AvcCBox,
            0x61763031 => BoxType::Av01Box,
            0x61763143 => BoxType::Av1CBox,
            0x68657631 => BoxType::Hev1Box,
            0x68766331 => BoxType::Hvc1Box,
            0x68766343 => BoxType::HvcCBox,
            0x6d703461 => BoxType::Mp4aBox,
            0x65736473 => BoxType::EsdsBox,
            0x74783367 => BoxType::Tx3gBox,
            0x76706343 => BoxType::VpccBox,
            0x76703038 => BoxType::Vp08Box,
            0x76703039 => BoxType::Vp09Box,
            0x64617461 => BoxType::DataBox,
            0x696c7374 => BoxType::IlstBox,
            0xa96e616d => BoxType::NameBox,
            0xa9646179 => BoxType::DayBox,
            0x636f7672 => BoxType::CovrBox,
            0x64657363 => BoxType::DescBox,
            0x77696465 => BoxType::WideBox,
            0x77617665 => BoxType::WaveBox,
            _ => BoxType::UnknownBox(c),
        }
    }

    /// Encodes a box type back into its 32-bit FourCC value.
    pub fn to_u32(self) -> (c: u32)
        ensures
            c as int == box_type_code(self),
    {
        match self {
            BoxType::FtypBox => 0x66747970,
            BoxType::MvhdBox => 0x6d766864,
            BoxType::MfhdBox => 0x6d666864,
            BoxType::FreeBox => 0x66726565,
            BoxType::MdatBox => 0x6d646174,
            BoxType::MoovBox => 0x6d6f6f76,
            BoxType::MvexBox => 0x6d766578,
            BoxType::MehdBox => 0x6d656864,
            BoxType::TrexBox => 0x74726578,
            BoxType::EmsgBox => 0x656d7367,
            BoxType::MoofBox => 0x6d6f6f66,
            BoxType::TkhdBox => 0x746b6864,
            BoxType::TfhdBox => 0x74666864,
            BoxType::TfdtBox => 0x74666474,
            BoxType::EdtsBox => 0x65647473,
            BoxType::MdiaBox => 0x6d646961,
            BoxType::ElstBox => 0x656c7374,
            BoxType::MdhdBox => 0x6d646864,
            BoxType::HdlrBox => 0x68646c72,
            BoxType::MinfBox => 0x6d696e66,
            BoxType::VmhdBox => 0x766d6864,
            BoxType::StblBox => 0x7374626c,
            BoxType::StsdBox => 0x73747364,
            BoxType::SttsBox => 0x73747473,
            BoxType::CttsBox => 0x63747473,
            BoxType::StssBox => 0x73747373,
            BoxType::StscBox => 0x73747363,
            BoxType::StszBox => 0x7374737A,
            BoxType::StcoBox => 0x7374636F,
            BoxType::Co64Box => 0x636F3634,
            BoxType::TrakBox => 0x7472616b,
            BoxType::TrafBox => 0x74726166,
            BoxType::TrunBox => 0x7472756E,
            BoxType::UdtaBox => 0x75647461,
            BoxType::MetaBox => 0x6d657461,
            BoxType::DinfBox => 0x64696e66,
            BoxType::DrefBox => 0x64726566,
            BoxType::UrlBox => 0x75726C20,
            BoxType::SmhdBox => 0x736d6864,
            BoxType::Avc1Box => 0x61766331,
            BoxType::AvcCBox => 0x61766343,
            BoxType::Av01Box => 0x61763031,
            BoxType::Av1CBox => 0x61763143,
            BoxType::Hev1Box => 0x68657631,
            BoxType::Hvc1Box => 0x68766331,
            BoxType::HvcCBox => 0x68766343,
            BoxType::Mp4aBox => 0x6d703461,
            BoxType::EsdsBox => 0x65736473,
            BoxType::Tx3gBox => 0x74783367,
            BoxType::VpccBox => 0x76706343,
            BoxType::Vp08Box => 0x76703038,
            BoxType::Vp09Box => 0x76703039,
            BoxType::DataBox => 0x64617461,
            BoxType::IlstBox => 0x696c7374,
            BoxType::NameBox => 0xa96e616d,
            BoxType::DayBox => 0xa9646179,
            BoxType::CovrBox => 0x636f7672,
            BoxType::DescBox => 0x64657363,
            BoxType::WideBox => 0x77696465,
            BoxType::WaveBox => 0x77617665,
            BoxType::UnknownBox(c) => c,
        }
    }
}

/// Every concrete box reports its type code and its declared size in bytes.
/// `size_spec` is the mathematical size of the box as it would be declared
/// in a file: the fixed header plus the declared sizes of its parts, so that
/// for a container the declared size is exactly the sum of its children's
/// declared sizes plus the header fields.
pub trait Mp4Box: Sized {
    spec fn size_spec(&self) -> int;

    /// The declared size of every box is at least its own header.
    proof fn size_spec_bounds(&self)
        ensures
            self.size_spec() >= 0,
    ;

    fn box_type(&self) -> (t: BoxType);

    fn box_size(&self) -> (s: u64)
        requires
            self.size_spec() <= u64::MAX,
        ensures
            s as int == self.size_spec(),
    ;
}

/// The declared sizes of a sequence of boxes, added up.
pub open spec fn sum_box_sizes<T: Mp4Box>(s: Seq<T>) -> int
    decreases s.len(),
{
    if s.len() == 0 {
        0
    } else {
        sum_box_sizes(s.drop_last()) + s.last().size_spec()
    }
}

pub proof fn lemma_sum_box_sizes_take_step<T: Mp4Box>(s: Seq<T>, i: int)
    requires
        0 <= i < s.len(),
    ensures
        sum_box_sizes(s.take(i + 1)) == sum_box_sizes(s.take(i)) + s[i].size_spec(),
{
    assert(s.take(i + 1).drop_last() =~= s.take(i));
    assert(s.take(i + 1).last() == s[i]);
}

pub proof fn lemma_sum_box_sizes_nonneg<T: Mp4Box>(s: Seq<T>)
    ensures
        sum_box_sizes(s) >= 0,
    decreases s.len(),
{
    if s.len() > 0 {
        lemma_sum_box_sizes_nonneg(s.drop_last());
        s.last().size_spec_bounds();
    }
}

pub proof fn lemma_sum_box_sizes_take_le<T: Mp4Box>(s: Seq<T>, i: int)
    requires
        0 <= i <= s.len(),
    ensures
        sum_box_sizes(s.take(i)) <= sum_box_sizes(s),
    decreases s.len() - i,
{
    if i == s.len() {
        assert(s.take(i) =~= s);
    } else {
        lemma_sum_box_sizes_take_le(s, i + 1);
        lemma_sum_box_sizes_take_step(s, i);
        s[i].size_spec_bounds();
    }
}

/// Every concrete box can be read from a byte slice.  On entry the cursor
/// stands just past the box's plain 8-byte header and `size` is the declared
/// size counted from the box start; on success the cursor stands exactly at
/// the box end, `start + size`, whether or not the reader consumed every
/// declared byte.
pub trait ReadBox: Sized {
    fn read_box(data: &[u8], pos: &mut u64, size: u64) -> (r: Result<Self, Error>)
        requires
            *old(pos) >= 8,
            *old(pos) - 8 + size <= u64::MAX,
        ensures
            r is Ok ==> *final(pos) == *old(pos) - 8 + size,
            r matches Err(e) ==> child_error(e),
    ;
}

/// A child walk from box boundary `p` up to `end` reads a box of type `t`
/// before it runs out: each child's declared extent must fit inside the
/// parent, and the walk steps from child end to child end.
pub open spec fn children_have(s: Seq<u8>, p: int, end: int, t: BoxType) -> bool
    decreases (if p < end { end - p } else { 0int }),
{
    if p >= end {
        false
    } else if !header_parse_ok(s, p) {
        false
    } else if header_size(s, p) < 8 {
        false
    } else if p + header_len(s, p) - 8 + header_size(s, p) > end {
        false
    } else if header_name(s, p) == t {
        true
    } else {
        children_have(s, p + header_len(s, p) - 8 + header_size(s, p), end, t)
    }
}

/// An error a box-tree walk below the top level can produce: never a
/// claim that a required top-level box is missing, and never a dangling
/// track reference, which only fragment merging raises.
pub open spec fn child_error(e: Error) -> bool {
    match e {
        Error::MissingRequiredBox(bt) => bt != BoxType::FtypBox && bt != BoxType::MoovBox,
        Error::UnresolvedTrackReference(_) => false,
        _ => true,
    }
}

/// True when an 8-byte header can be read at `p` and, if its size field is
/// the 64-bit escape, the 8 extra bytes are present and the stored value is
/// not in the impossible range `1..=15`.
pub open spec fn header_parse_ok(s: Seq<u8>, p: int) -> bool {
    &&& p + 8 <= s.len()
    &&& (be32(s, p) == 1 ==> {
        &&& p + 16 <= s.len()
        &&& !(1 <= be64(s, p + 8) <= 15)
    })
}

/// How many bytes the header at `p` occupies: 16 with the size escape, 8 without.
pub open spec fn header_len(s: Seq<u8>, p: int) -> int {
    if be32(s, p) == 1 {
        16
    } else {
        8
    }
}

/// The declared box size encoded by the header at `p`, normalized so that
/// the box occupies `[p, p + size)`: a 64-bit escape value is reduced by the
/// 8 extra header bytes, and 0 (from either field) means the box runs to the
/// end of the stream.
pub open spec fn header_size(s: Seq<u8>, p: int) -> int {
    if be32(s, p) == 1 {
        if be64(s, p + 8) == 0 {
            0
        } else {
            be64(s, p + 8) - 8
        }
    } else {
        be32(s, p)
    }
}

/// The box type encoded by the header at `p`.
pub open spec fn header_name(s: Seq<u8>, p: int) -> BoxType {
    box_type_of(be32(s, p + 4))
}

/// A decoded box header: the type code and the declared size in bytes,
/// counted from the first byte of the header itself.
#[derive(Debug, Clone, Copy)]
pub struct BoxHeader {
    pub name: BoxType,
    pub size: u64,
}

impl BoxHeader {
    pub fn new(name: BoxType, size: u64) -> (h: BoxHeader)
        ensures
            h.name == name,
            h.size == size,
    {
        BoxHeader { name, size }
    }

    /// Reads a box header at the cursor: 4-byte size, 4-byte type, and the
    /// 8-byte large-size escape when the size field is 1.  A large size of
    /// `1..=15` cannot contain its own header and is malformed; 0 marks a
    /// box that extends to the end of the stream.
    pub fn read(data: &[u8], pos: &mut u64) -> (r: Result<BoxHeader, Error>)
        ensures
            match r {
                Ok(h) => {
                    &&& header_parse_ok(data@, *old(pos) as int)
                    &&& h.size as int == header_size(data@, *old(pos) as int)
                    &&& h.name == header_name(data@, *old(pos) as int)
                    &&& *final(pos) == *old(pos) + header_len(data@, *old(pos) as int)
                },
                Err(e) => {
                    &&& !header_parse_ok(data@, *old(pos) as int)
                    &&& (e is MalformedContainer || e is Io)
                    &&& (e is MalformedContainer <==> *old(pos) + 16 <= data@.len() && be32(
                        data@,
                        *old(pos) as int,
                    ) == 1 && 1 <= be64(data@, *old(pos) + 8) <= 15)
                },
            },
    {
        let size32 = match read_u32(data, pos) {
            Ok(v) => v,
            Err(e) => {
                return Err(e);
            },
        };
        let code = match read_u32(data, pos) {
            Ok(v) => v,
            Err(e) => {
                return Err(e);
            },
        };
        let name = BoxType::from_u32(code);
        if size32 == 1 {
            let largesize = match read_u64(data, pos) {
                Ok(v) => v,
                Err(e) => {
                    return Err(e);
                },
            };
            if largesize == 0 {
                Ok(BoxHeader { name, size: 0 })
            } else if largesize <= 15 {
                Err(Error::MalformedContainer("64-bit box size too small"))
            } else {
                Ok(BoxHeader { name, size: largesize - 8 })
            }
        } else {
            Ok(BoxHeader { name, size: size32 as u64 })
        }
    }
}

/// Reads the full-box extension: an 8-bit version followed by 24-bit flags.
pub fn read_box_header_ext(data: &[u8], pos: &mut u64) -> (r: Result<(u8, u32), Error>)
    ensures
        match r {
            Ok(vf) => *old(pos) + 4 <= data@.len() && *final(pos) == *old(pos) + 4 && vf.0 == data@[*old(
                pos,
            ) as int] && vf.1 as int == be24(data@, *old(pos) + 1),
            Err(e) => e is Io && *old(pos) + 4 > data@.len(),
        },
{
    let version = match read_u8(data, pos) {
        Ok(v) => v,
        Err(e) => {
            return Err(e);
        },
    };
    let flags = match read_u24(data, pos) {
        Ok(v) => v,
        Err(e) => {
            return Err(e);
        },
    };
    Ok((version, flags))
}

/// The first byte of the box whose plain header was just read at `pos`.
pub fn box_start(pos: u64) -> (r: u64)
    requires
        pos >= 8,
    ensures
        r == pos - 8,
{
    pos - 8
}

/// Moves the cursor to the end of the box whose plain header was just read:
/// its start plus its declared size.
pub fn skip_box(pos: &mut u64, size: u64) -> (r: Result<(), Error>)
    requires
        *old(pos) >= 8,
    ensures
        match r {
            Ok(()) => *old(pos) - 8 + size <= u64::MAX && *final(pos) == *old(pos) - 8 + size,
            Err(e) => e is MalformedContainer && *old(pos) - 8 + size > u64::MAX,
        },
{
    let start = *pos - 8;
    if size > u64::MAX - start {
        return Err(Error::MalformedContainer("box end does not fit in 64 bits"));
    }
    *pos = start + size;
    Ok(())
}

/// Moves the cursor to the declared end of the box that starts at `start`,
/// whether the reader consumed fewer or more of the declared bytes.
pub fn seek_end(pos: &mut u64, start: u64, size: u64) -> (r: Result<(), Error>)
    ensures
        match r {
            Ok(()) => start + size <= u64::MAX && *final(pos) == start + size,
            Err(e) => e is MalformedContainer && start + size > u64::MAX,
        },
{
    if size > u64::MAX - start {
        return Err(Error::MalformedContainer("box end does not fit in 64 bits"));
    }
    *pos = start + size;
    Ok(())
}

/// Checks that the child whose plain header was just read at `pos - 8` (or
/// `pos - 16` with the size escape, which its normalized size accounts for)
/// fits within the parent that ends at `parent_end`, and returns the child's
/// end position.  A declared child size below 8 cannot even cover the
/// child's own header.
pub fn child_end(pos: u64, s: u64, parent_end: u64) -> (r: Result<u64, Error>)
    requires
        pos >= 8,
    ensures
        match r {
            Ok(e) => s >= 8 && e == pos - 8 + s && e <= parent_end && e > pos - 8,
            Err(er) => er is MalformedContainer && (s < 8 || pos - 8 + s > parent_end),
        },
{
    if s < 8 {
        return Err(Error::MalformedContainer("child box smaller than its own header"));
    }
    let base = pos - 8;
    if base > parent_end || s > parent_end - base {
        return Err(
            Error::MalformedContainer("child box larger than the space remaining in its parent"),
        );
    }
    Ok(base + s)
}

/// A box kept both in decoded form and as the raw bytes of its body, so a
/// caller can hand the undecoded configuration on to a decoder.
#[derive(Debug, Clone, PartialEq, Eq)]
pub struct RawBox<T> {
    pub contents: T,
    pub raw: Vec<u8>,
}

impl<T: ReadBox> ReadBox for RawBox<T> {
    /// The decoded contents beside the raw bytes from just after the plain
    /// header to the box end.
    fn read_box(data: &[u8], pos: &mut u64, size: u64) -> (r: Result<Self, Error>)
        ensures
            match r {
                Ok(b) => {
                    &&& *final(pos) == *old(pos) - 8 + size
                    &&& *old(pos) - 8 + size <= data@.len()
                    &&& b.raw@ == data@.subrange(*old(pos) as int, *old(pos) - 8 + size)
                },
                Err(_) => true,
            },
    {
        let start = *pos;
        let contents = match T::read_box(data, pos, size) {
            Ok(c) => c,
            Err(e) => {
                return Err(e);
            },
        };
        let end = *pos;
        if end < start {
            return Err(Error::MalformedContainer("box smaller than its header"));
        }
        let raw = match copy_bytes_range(data, start, end) {
            Ok(v) => v,
            Err(e) => {
                return Err(e);
            },
        };
        Ok(RawBox { contents, raw })
    }
}

/// Copies the bytes of `data` between two positions.
fn copy_bytes_range(data: &[u8], start: u64, end: u64) -> (r: Result<Vec<u8>, Error>)
    requires
        start <= end,
    ensures
        match r {
            Ok(v) => end <= data@.len() && v@ == data@.subrange(start as int, end as int),
            Err(e) => e is Io && end > data@.len(),
        },
{
    crate::byteio::copy_bytes(data, start, end - start)
}

} // verus!
