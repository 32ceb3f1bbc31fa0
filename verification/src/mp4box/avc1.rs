//! `avc1` — the AVC visual sample entry and its `avcC` configuration
//! record with sequence and picture parameter sets.  Codec parameter
//! boxes, decoded as external collaborators.

use crate::byteio::{copy_bytes, read_u16, read_u32, read_u64, read_u8, skip_bytes};
use crate::error::Error;
use crate::mp4box::{
    box_start, child_end, seek_end, BoxHeader, BoxType, Mp4Box, RawBox, ReadBox,
};
use crate::types::FixedPointU16;
use vstd::prelude::*;

verus! {

#[derive(Debug, Clone, PartialEq, Eq)]
pub struct Avc1Box {
    pub data_reference_index: u16,
    pub width: u16,
    pub height: u16,
    pub horizresolution: FixedPointU16,
    pub vertresolution: FixedPointU16,
    pub frame_count: u16,
    pub depth: u16,
    pub avcc: RawBox<AvcCBox>,
}

impl Avc1Box {
    pub fn get_type(&self) -> (t: BoxType)
        ensures
            t == BoxType::Avc1Box,
    {
        BoxType::Avc1Box
    }

    pub fn get_size(&self) -> (s: u64)
        requires
            self.size_spec() <= u64::MAX,
        ensures
            s as int == self.size_spec(),
    {
        proof {
            self.avcc.contents.size_spec_bounds();
        }
        8 + 8 + 70 + self.avcc.contents.box_size()
    }
}

impl Mp4Box for Avc1Box {
    open spec fn size_spec(&self) -> int {
        8 + 8 + 70 + self.avcc.contents.size_spec()
    }

    proof fn size_spec_bounds(&self) {
        self.avcc.contents.size_spec_bounds();
    }

    fn box_type(&self) -> (t: BoxType) {
        self.get_type()
    }

    fn box_size(&self) -> (s: u64) {
        self.get_size()
    }
}

impl ReadBox for Avc1Box {
    /// Decodes the fixed presentation fields, then scans the children for
    /// the mandatory `avcC` record.
    fn read_box(data: &[u8], pos: &mut u64, size: u64) -> (r: Result<Self, Error>)
        ensures
            r is Ok ==> *final(pos) == *old(pos) - 8 + size,
    {
        let start = box_start(*pos);
        if size > u64::MAX - start {
            return Err(Error::MalformedContainer("box end does not fit in 64 bits"));
        }
        let end: u64 = start + size;
        match read_u32(data, pos) {
            Ok(_) => {},
            Err(e) => {
                return Err(e);
            },
        }
        match read_u16(data, pos) {
            Ok(_) => {},
            Err(e) => {
                return Err(e);
            },
        }
        let data_reference_index = match read_u16(data, pos) {
            Ok(v) => v,
            Err(e) => {
                return Err(e);
            },
        };
        match read_u32(data, pos) {
            Ok(_) => {},
            Err(e) => {
                return Err(e);
            },
        }
        match read_u64(data, pos) {
            Ok(_) => {},
            Err(e) => {
                return Err(e);
            },
        }
        match read_u32(data, pos) {
            Ok(_) => {},
            Err(e) => {
                return Err(e);
            },
        }
        let width = match read_u16(data, pos) {
            Ok(v) => v,
            Err(e) => {
                return Err(e);
            },
        };
        let height = match read_u16(data, pos) {
            Ok(v) => v,
            Err(e) => {
                return Err(e);
            },
        };
        let horizresolution = match read_u32(data, pos) {
            Ok(v) => FixedPointU16::new_raw(v),
            Err(e) => {
                return Err(e);
            },
        };
        let vertresolution = match read_u32(data, pos) {
            Ok(v) => FixedPointU16::new_raw(v),
            Err(e) => {
                return Err(e);
            },
        };
        match read_u32(data, pos) {
            Ok(_) => {},
            Err(e) => {
                return Err(e);
            },
        }
        let frame_count = match read_u16(data, pos) {
            Ok(v) => v,
            Err(e) => {
                return Err(e);
            },
        };
        match skip_bytes(data, pos, 32) {
            Ok(()) => {},
            Err(e) => {
                return Err(e);
            },
        }
        let depth = match read_u16(data, pos) {
            Ok(v) => v,
            Err(e) => {
                return Err(e);
            },
        };
        match read_u16(data, pos) {
            Ok(_) => {},
            Err(e) => {
                return Err(e);
            },
        }
        while *pos < end
            invariant
                *pos >= 8,
                end <= u64::MAX,
                end == start + size,
                start == *old(pos) - 8,
            decreases end - *pos,
        {
            let header = match BoxHeader::read(data, pos) {
                Ok(h) => h,
                Err(e) => {
                    return Err(e);
                },
            };
            let cend = match child_end(*pos, header.size, end) {
                Ok(v) => v,
                Err(e) => {
                    return Err(e);
                },
            };
            if let BoxType::AvcCBox = header.name {
                let avcc = match RawBox::<AvcCBox>::read_box(data, pos, header.size) {
                    Ok(b) => b,
                    Err(e) => {
                        return Err(e);
                    },
                };
                match seek_end(pos, start, size) {
                    Ok(()) => {},
                    Err(e) => {
                        return Err(e);
                    },
                }
                return Ok(
                    Avc1Box {
                        data_reference_index,
                        width,
                        height,
                        horizresolution,
                        vertresolution,
                        frame_count,
                        depth,
                        avcc,
                    },
                );
            } else {
                *pos = cend;
            }
        }
        Err(Error::MalformedContainer("avcc not found"))
    }
}

/// One parameter-set NAL unit of an `avcC` record.
#[derive(Debug, Clone, PartialEq, Eq)]
pub struct NalUnit {
    pub bytes: Vec<u8>,
}

impl NalUnit {
    /// Wraps a slice of NAL bytes.
    pub fn from_bytes(bytes: &[u8]) -> (n: NalUnit)
        ensures
            n.bytes@ == bytes@,
    {
        NalUnit { bytes: slice_to_vec_u8(bytes) }
    }
}

/// Copies a byte slice into an owned vector.
fn slice_to_vec_u8(bytes: &[u8]) -> (v: Vec<u8>)
    ensures
        v@ == bytes@,
{
    let mut out: Vec<u8> = Vec::new();
    let n = bytes.len();
    let mut i: usize = 0;
    while i < n
        invariant
            i <= n,
            n == bytes@.len(),
            out@ == bytes@.take(i as int),
        decreases n - i,
    {
        out.push(bytes[i]);
        proof {
            assert(bytes@.take(i + 1) =~= bytes@.take(i as int).push(bytes@[i as int]));
        }
        i = i + 1;
    }
    proof {
        assert(bytes@.take(n as int) =~= bytes@);
    }
    out
}

impl NalUnit {
    /// The serialized footprint: a 16-bit length prefix plus the payload.
    pub fn size(&self) -> (s: usize)
        requires
            self.bytes@.len() + 2 <= usize::MAX,
        ensures
            s == self.bytes@.len() + 2,
    {
        2 + self.bytes.len()
    }

    /// Reads a length-prefixed NAL unit.
    pub fn read(data: &[u8], pos: &mut u64) -> (r: Result<NalUnit, Error>)
        ensures
            match r {
                Ok(n) => *final(pos) == *old(pos) + 2 + n.bytes@.len() && *final(pos)
                    <= data@.len(),
                Err(e) => e is Io,
            },
    {
        let length = match read_u16(data, pos) {
            Ok(v) => v,
            Err(e) => {
                return Err(e);
            },
        };
        let bytes = match copy_bytes(data, *pos, length as u64) {
            Ok(v) => v,
            Err(e) => {
                return Err(e);
            },
        };
        *pos = *pos + (length as u64);
        Ok(NalUnit { bytes })
    }
}

/// The decoded `avcC` record.
#[derive(Debug, Clone, PartialEq, Eq)]
pub struct AvcCBox {
    pub configuration_version: u8,
    pub avc_profile_indication: u8,
    pub profile_compatibility: u8,
    pub avc_level_indication: u8,
    pub length_size_minus_one: u8,
    pub sequence_parameter_sets: Vec<NalUnit>,
    pub picture_parameter_sets: Vec<NalUnit>,
    pub ext: Vec<u8>,
}

/// The serialized footprints of a list of parameter-set NAL units, each a
/// 16-bit length prefix plus its payload, added up.
pub open spec fn sum_nal_sizes(s: Seq<NalUnit>) -> int
    decreases s.len(),
{
    if s.len() == 0 {
        0
    } else {
        sum_nal_sizes(s.drop_last()) + 2 + s.last().bytes@.len()
    }
}

pub proof fn lemma_sum_nal_sizes_take_step(s: Seq<NalUnit>, i: int)
    requires
        0 <= i < s.len(),
    ensures
        sum_nal_sizes(s.take(i + 1)) == sum_nal_sizes(s.take(i)) + 2 + s[i].bytes@.len(),
{
    assert(s.take(i + 1).drop_last() =~= s.take(i));
    assert(s.take(i + 1).last() == s[i]);
}

pub proof fn lemma_sum_nal_sizes_nonneg(s: Seq<NalUnit>)
    ensures
        sum_nal_sizes(s) >= 0,
    decreases s.len(),
{
    if s.len() > 0 {
        lemma_sum_nal_sizes_nonneg(s.drop_last());
    }
}

pub proof fn lemma_sum_nal_sizes_take_le(s: Seq<NalUnit>, i: int)
    requires
        0 <= i <= s.len(),
    ensures
        sum_nal_sizes(s.take(i)) <= sum_nal_sizes(s),
    decreases s.len() - i,
{
    if i == s.len() {
        assert(s.take(i) =~= s);
    } else {
        lemma_sum_nal_sizes_take_le(s, i + 1);
        lemma_sum_nal_sizes_take_step(s, i);
    }
}

impl AvcCBox {
    /// Builds a configuration record around one sequence and one picture
    /// parameter set; the profile fields come from the set's own bytes.
    pub fn new(sps: &[u8], pps: &[u8]) -> (b: AvcCBox)
        requires
            sps@.len() >= 4,
        ensures
            b.avc_profile_indication == sps@[1],
            b.profile_compatibility == sps@[2],
            b.avc_level_indication == sps@[3],
            b.sequence_parameter_sets@.len() == 1,
            b.picture_parameter_sets@.len() == 1,
    {
        let mut sequence_parameter_sets: Vec<NalUnit> = Vec::new();
        sequence_parameter_sets.push(NalUnit::from_bytes(sps));
        let mut picture_parameter_sets: Vec<NalUnit> = Vec::new();
        picture_parameter_sets.push(NalUnit::from_bytes(pps));
        AvcCBox {
            configuration_version: 1,
            avc_profile_indication: sps[1],
            profile_compatibility: sps[2],
            avc_level_indication: sps[3],
            length_size_minus_one: 0xff % 4,
            sequence_parameter_sets,
            picture_parameter_sets,
            ext: Vec::new(),
        }
    }

    pub fn get_type(&self) -> (t: BoxType)
        ensures
            t == BoxType::AvcCBox,
    {
        BoxType::AvcCBox
    }

    /// Adds up the footprints of one parameter-set list.
    fn sum_sets(sets: &Vec<NalUnit>, bound: Ghost<int>) -> (s: u64)
        requires
            sum_nal_sizes(sets@) <= bound@,
            bound@ <= u64::MAX,
        ensures
            s as int == sum_nal_sizes(sets@),
    {
        let mut sum: u64 = 0;
        let mut i: usize = 0;
        let n = sets.len();
        proof {
            lemma_sum_nal_sizes_nonneg(sets@);
        }
        while i < n
            invariant
                i <= n,
                n == sets@.len(),
                sum_nal_sizes(sets@) <= bound@,
                bound@ <= u64::MAX,
                sum as int == sum_nal_sizes(sets@.take(i as int)),
            decreases n - i,
        {
            proof {
                lemma_sum_nal_sizes_take_step(sets@, i as int);
                lemma_sum_nal_sizes_take_le(sets@, i as int + 1);
            }
            let nal = &sets[i];
            sum = sum + 2 + (nal.bytes.len() as u64);
            i = i + 1;
        }
        proof {
            assert(sets@.take(n as int) =~= sets@);
        }
        sum
    }
}

impl Mp4Box for AvcCBox {
    open spec fn size_spec(&self) -> int {
        8 + 7 + sum_nal_sizes(self.sequence_parameter_sets@) + sum_nal_sizes(
            self.picture_parameter_sets@,
        )
    }

    proof fn size_spec_bounds(&self) {
        lemma_sum_nal_sizes_nonneg(self.sequence_parameter_sets@);
        lemma_sum_nal_sizes_nonneg(self.picture_parameter_sets@);
    }

    fn box_type(&self) -> (t: BoxType) {
        self.get_type()
    }

    fn box_size(&self) -> (s: u64) {
        proof {
            lemma_sum_nal_sizes_nonneg(self.sequence_parameter_sets@);
            lemma_sum_nal_sizes_nonneg(self.picture_parameter_sets@);
        }
        let sps = AvcCBox::sum_sets(&self.sequence_parameter_sets, Ghost(self.size_spec() - 15));
        let pps = AvcCBox::sum_sets(&self.picture_parameter_sets, Ghost(self.size_spec() - 15));
        8 + 7 + sps + pps
    }
}

impl ReadBox for AvcCBox {
    fn read_box(data: &[u8], pos: &mut u64, size: u64) -> (r: Result<Self, Error>)
        ensures
            r is Ok ==> *final(pos) == *old(pos) - 8 + size,
    {
        let start = box_start(*pos);
        let content_start = *pos;
        let configuration_version = match read_u8(data, pos) {
            Ok(v) => v,
            Err(e) => {
                return Err(e);
            },
        };
        let avc_profile_indication = match read_u8(data, pos) {
            Ok(v) => v,
            Err(e) => {
                return Err(e);
            },
        };
        let profile_compatibility = match read_u8(data, pos) {
            Ok(v) => v,
            Err(e) => {
                return Err(e);
            },
        };
        let avc_level_indication = match read_u8(data, pos) {
            Ok(v) => v,
            Err(e) => {
                return Err(e);
            },
        };
        let length_size_minus_one = match read_u8(data, pos) {
            Ok(v) => v % 4,
            Err(e) => {
                return Err(e);
            },
        };
        let num_of_spss = match read_u8(data, pos) {
            Ok(v) => v % 32,
            Err(e) => {
                return Err(e);
            },
        };
        let mut sequence_parameter_sets: Vec<NalUnit> = Vec::new();
        let mut i: u8 = 0;
        while i < num_of_spss
            invariant
                i <= num_of_spss,
                *pos >= content_start,
            decreases num_of_spss - i,
        {
            let nal_unit = match NalUnit::read(data, pos) {
                Ok(n) => n,
                Err(e) => {
                    return Err(e);
                },
            };
            sequence_parameter_sets.push(nal_unit);
            i = i + 1;
        }
        let num_of_ppss = match read_u8(data, pos) {
            Ok(v) => v,
            Err(e) => {
                return Err(e);
            },
        };
        let mut picture_parameter_sets: Vec<NalUnit> = Vec::new();
        let mut j: u8 = 0;
        while j < num_of_ppss
            invariant
                j <= num_of_ppss,
                *pos >= content_start,
            decreases num_of_ppss - j,
        {
            let nal_unit = match NalUnit::read(data, pos) {
                Ok(n) => n,
                Err(e) => {
                    return Err(e);
                },
            };
            picture_parameter_sets.push(nal_unit);
            j = j + 1;
        }
        let consumed: u64 = *pos - content_start;
        if size < 8 || size - 8 < consumed {
            return Err(Error::MalformedContainer("avcC contents exceed the declared size"));
        }
        let remainder: u64 = size - 8 - consumed;
        let ext = match copy_bytes(data, *pos, remainder) {
            Ok(v) => v,
            Err(e) => {
                return Err(e);
            },
        };
        match seek_end(pos, start, size) {
            Ok(()) => {},
            Err(e) => {
                return Err(e);
            },
        }
        Ok(
            AvcCBox {
                configuration_version,
                avc_profile_indication,
                profile_compatibility,
                avc_level_indication,
                length_size_minus_one,
                sequence_parameter_sets,
                picture_parameter_sets,
                ext,
            },
        )
    }
}

} // verus!
