//! `mp4a` — the AAC audio sample entry with its nested `esds` elementary
//! stream descriptors.  Codec parameter boxes, decoded as external
//! collaborators.

use crate::byteio::{read_u16, read_u24, read_u32, read_u64, read_u8, skip_bytes};
use crate::error::Error;
use crate::mp4box::{
    box_start, child_end, read_box_header_ext, seek_end, BoxHeader, BoxType, Mp4Box, ReadBox,
};
use crate::types::FixedPointU16;
use vstd::prelude::*;

verus! {

#[derive(Debug, Clone, PartialEq, Eq)]
pub struct Mp4aBox {
    pub data_reference_index: u16,
    pub channelcount: u16,
    pub samplesize: u16,
    pub samplerate: FixedPointU16,
    pub esds: Option<EsdsBox>,
}

impl Mp4aBox {
    /// Builds an audio sample entry for the given AAC configuration.
    pub fn new(config: &crate::types::AacConfig) -> (b: Mp4aBox)
        ensures
            b.data_reference_index == 1,
            b.samplesize == 16,
            b.esds is Some,
    {
        Mp4aBox {
            data_reference_index: 1,
            channelcount: config.chan_conf.code() as u16,
            samplesize: 16,
            samplerate: crate::types::FixedPointU16::new(freq_u16(config.freq_index.freq())),
            esds: Some(EsdsBox::new(config)),
        }
    }

    pub fn get_type(&self) -> (t: BoxType)
        ensures
            t == BoxType::Mp4aBox,
    {
        BoxType::Mp4aBox
    }

    pub fn get_size(&self) -> (s: u64)
        ensures
            s as int == self.size_spec(),
    {
        let base: u64 = 8 + 8 + 20;
        match &self.esds {
            Some(esds) => base + esds.get_size(),
            None => base,
        }
    }
}

impl Mp4Box for Mp4aBox {
    open spec fn size_spec(&self) -> int {
        8 + 8 + 20 + (match self.esds {
            Some(esds) => esds.size_spec(),
            None => 0int,
        })
    }

    proof fn size_spec_bounds(&self) {
    }

    fn box_type(&self) -> (t: BoxType) {
        self.get_type()
    }

    fn box_size(&self) -> (s: u64) {
        self.get_size()
    }
}

impl ReadBox for Mp4aBox {
    /// Decodes the fixed audio sample-entry fields, then scans the
    /// children for an `esds` box, descending into `wave` wrappers.
    fn read_box(data: &[u8], pos: &mut u64, size: u64) -> (r: Result<Self, Error>)
        ensures
            r is Ok ==> *final(pos) == *old(pos) - 8 + size,
    {
        let start = box_start(*pos);
        if size > u64::MAX - start {
            return Err(Error::MalformedContainer("box end does not fit in 64 bits"));
        }
        let end: u64 = start + size;
        match read_u32(data, pos) {
            Ok(_) => {},
            Err(e) => {
                return Err(e);
            },
        }
        match read_u16(data, pos) {
            Ok(_) => {},
            Err(e) => {
                return Err(e);
            },
        }
        let data_reference_index = match read_u16(data, pos) {
            Ok(v) => v,
            Err(e) => {
                return Err(e);
            },
        };
        let version = match read_u16(data, pos) {
            Ok(v) => v,
            Err(e) => {
                return Err(e);
            },
        };
        match read_u16(data, pos) {
            Ok(_) => {},
            Err(e) => {
                return Err(e);
            },
        }
        match read_u32(data, pos) {
            Ok(_) => {},
            Err(e) => {
                return Err(e);
            },
        }
        let channelcount = match read_u16(data, pos) {
            Ok(v) => v,
            Err(e) => {
                return Err(e);
            },
        };
        let samplesize = match read_u16(data, pos) {
            Ok(v) => v,
            Err(e) => {
                return Err(e);
            },
        };
        match read_u32(data, pos) {
            Ok(_) => {},
            Err(e) => {
                return Err(e);
            },
        }
        let samplerate = match read_u32(data, pos) {
            Ok(v) => FixedPointU16::new_raw(v),
            Err(e) => {
                return Err(e);
            },
        };
        if version == 1 {
            match read_u64(data, pos) {
                Ok(_) => {},
                Err(e) => {
                    return Err(e);
                },
            }
            match read_u64(data, pos) {
                Ok(_) => {},
                Err(e) => {
                    return Err(e);
                },
            }
        }
        let mut esds: Option<EsdsBox> = None;
        while *pos < end
            invariant
                *pos >= 8,
                end <= u64::MAX,
            decreases end - *pos,
        {
            let header = match BoxHeader::read(data, pos) {
                Ok(h) => h,
                Err(e) => {
                    return Err(e);
                },
            };
            let cend = match child_end(*pos, header.size, end) {
                Ok(v) => v,
                Err(e) => {
                    return Err(e);
                },
            };
            match header.name {
                BoxType::EsdsBox => {
                    let b = match EsdsBox::read_box(data, pos, header.size) {
                        Ok(b) => b,
                        Err(e) => {
                            return Err(e);
                        },
                    };
                    esds = Some(b);
                    break ;
                },
                BoxType::WaveBox => {
                    // descend into the wrapper: its children follow directly
                },
                _ => {
                    *pos = cend;
                },
            }
        }
        match seek_end(pos, start, size) {
            Ok(()) => {},
            Err(e) => {
                return Err(e);
            },
        }
        Ok(Mp4aBox { data_reference_index, channelcount, samplesize, samplerate, esds })
    }
}

/// The `esds` full box wrapping the elementary-stream descriptor chain.
#[derive(Debug, Clone, Copy, PartialEq, Eq, Structural)]
pub struct EsdsBox {
    pub version: u8,
    pub flags: u32,
    pub es_desc: ESDescriptor,
}

/// The sampling frequency truncated to the 16-bit sample-rate field.
fn freq_u16(f: u32) -> (r: u16)
    ensures
        f <= 0xffff ==> r == f,
{
    if f <= 0xffff {
        f as u16
    } else {
        0xffff
    }
}

impl EsdsBox {
    /// Builds an `esds` box for the given AAC configuration.
    pub fn new(config: &crate::types::AacConfig) -> (b: EsdsBox)
        ensures
            b.version == 0,
            b.flags == 0,
    {
        EsdsBox { version: 0, flags: 0, es_desc: ESDescriptor::new(config) }
    }

    pub fn get_type(&self) -> (t: BoxType)
        ensures
            t == BoxType::EsdsBox,
    {
        BoxType::EsdsBox
    }

    pub fn get_size(&self) -> (s: u64)
        ensures
            s as int == self.size_spec(),
    {
        8 + 4 + 1 + 1 + 34
    }
}

impl Mp4Box for EsdsBox {
    open spec fn size_spec(&self) -> int {
        8int + 4 + 1 + 1 + 34
    }

    proof fn size_spec_bounds(&self) {
    }

    fn box_type(&self) -> (t: BoxType) {
        self.get_type()
    }

    fn box_size(&self) -> (s: u64) {
        self.get_size()
    }
}

impl ReadBox for EsdsBox {
    fn read_box(data: &[u8], pos: &mut u64, size: u64) -> (r: Result<Self, Error>)
        ensures
            r is Ok ==> *final(pos) == *old(pos) - 8 + size,
    {
        let start = box_start(*pos);
        if size > u64::MAX - start {
            return Err(Error::MalformedContainer("box end does not fit in 64 bits"));
        }
        let end: u64 = start + size;
        let (version, flags) = match read_box_header_ext(data, pos) {
            Ok(vf) => vf,
            Err(e) => {
                return Err(e);
            },
        };
        let mut es_desc: Option<ESDescriptor> = None;
        while *pos < end
            invariant
                *pos >= 8,
                end <= u64::MAX,
            decreases (if *pos < end { end - *pos } else { 0int }),
        {
            let (desc_tag, _desc_size) = match read_desc(data, pos) {
                Ok(v) => v,
                Err(e) => {
                    return Err(e);
                },
            };
            if desc_tag == 0x03 {
                let d = match ESDescriptor::read_desc(data, pos, _desc_size) {
                    Ok(d) => d,
                    Err(e) => {
                        return Err(e);
                    },
                };
                es_desc = Some(d);
            } else {
                break ;
            }
        }
        let es_desc = match es_desc {
            Some(d) => d,
            None => {
                return Err(Error::MalformedContainer("ESDescriptor not found"));
            },
        };
        match seek_end(pos, start, size) {
            Ok(()) => {},
            Err(e) => {
                return Err(e);
            },
        }
        Ok(EsdsBox { version, flags, es_desc })
    }
}

/// Reads one descriptor header: a tag byte and a size in up to four
/// 7-bit groups.
pub fn read_desc(data: &[u8], pos: &mut u64) -> (r: Result<(u8, u32), Error>)
    ensures
        match r {
            Ok(_) => *final(pos) > *old(pos) && *final(pos) <= *old(pos) + 5 && *final(pos)
                <= data@.len(),
            Err(e) => e is Io,
        },
{
    let tag = match read_u8(data, pos) {
        Ok(v) => v,
        Err(e) => {
            return Err(e);
        },
    };
    let mut desc_size: u32 = 0;
    let mut k: u8 = 0;
    while k < 4
        invariant
            k <= 4,
            *pos <= data@.len(),
            *pos <= *old(pos) + 1 + k,
            *pos > *old(pos),
        decreases 4 - k,
    {
        let b = match read_u8(data, pos) {
            Ok(v) => v,
            Err(e) => {
                return Err(e);
            },
        };
        desc_size = (desc_size % 0x2000000) * 0x80 + ((b % 0x80) as u32);
        if b < 0x80 {
            return Ok((tag, desc_size));
        }
        k = k + 1;
    }
    Ok((tag, desc_size))
}

/// The elementary-stream descriptor: the decoder configuration and
/// synchronization-layer configuration it carries.
#[derive(Debug, Clone, Copy, PartialEq, Eq, Structural)]
pub struct ESDescriptor {
    pub es_id: u16,
    pub dec_config: DecoderConfigDescriptor,
    pub sl_config: SLConfigDescriptor,
}

impl ESDescriptor {
    /// Builds an elementary-stream descriptor for the given AAC
    /// configuration.
    pub fn new(config: &crate::types::AacConfig) -> (d: ESDescriptor)
        ensures
            d.es_id == 1,
    {
        ESDescriptor {
            es_id: 1,
            dec_config: DecoderConfigDescriptor::new(config),
            sl_config: SLConfigDescriptor::new(),
        }
    }

    /// Decodes the descriptor body and its nested child descriptors, up to
    /// the declared descriptor size.
    pub fn read_desc(data: &[u8], pos: &mut u64, size: u32) -> (r: Result<ESDescriptor, Error>)
        ensures
            r is Ok ==> *final(pos) > *old(pos),
            r matches Err(e) ==> e is Io || e is MalformedContainer,
    {
        let start: u64 = *pos;
        if size as u64 > u64::MAX - start {
            return Err(Error::MalformedContainer("descriptor end does not fit in 64 bits"));
        }
        let end: u64 = start + size as u64;
        let es_id = match read_u16(data, pos) {
            Ok(v) => v,
            Err(e) => {
                return Err(e);
            },
        };
        match read_u8(data, pos) {
            Ok(_) => {},
            Err(e) => {
                return Err(e);
            },
        }
        let mut dec_config: Option<DecoderConfigDescriptor> = None;
        let mut sl_config: Option<SLConfigDescriptor> = None;
        while *pos < end
            invariant
                end <= u64::MAX,
                *pos > *old(pos),
            decreases (if *pos < end { end - *pos } else { 0int }),
        {
            let (desc_tag, desc_size) = match read_desc(data, pos) {
                Ok(v) => v,
                Err(e) => {
                    return Err(e);
                },
            };
            if desc_tag == 0x04 {
                let d = match DecoderConfigDescriptor::read_desc(data, pos, desc_size) {
                    Ok(d) => d,
                    Err(e) => {
                        return Err(e);
                    },
                };
                dec_config = Some(d);
            } else if desc_tag == 0x06 {
                let d = match SLConfigDescriptor::read_desc(data, pos) {
                    Ok(d) => d,
                    Err(e) => {
                        return Err(e);
                    },
                };
                sl_config = Some(d);
            } else {
                match skip_bytes(data, pos, desc_size as u64) {
                    Ok(()) => {},
                    Err(e) => {
                        return Err(e);
                    },
                }
            }
        }
        let dec_config = match dec_config {
            Some(d) => d,
            None => DecoderConfigDescriptor::empty(),
        };
        let sl_config = match sl_config {
            Some(d) => d,
            None => SLConfigDescriptor::new(),
        };
        Ok(ESDescriptor { es_id, dec_config, sl_config })
    }
}

/// The decoder configuration descriptor: stream type, bitrates and the
/// decoder-specific audio configuration.
#[derive(Debug, Clone, Copy, PartialEq, Eq, Structural)]
pub struct DecoderConfigDescriptor {
    pub object_type_indication: u8,
    pub stream_type: u8,
    pub up_stream: u8,
    pub buffer_size_db: u32,
    pub max_bitrate: u32,
    pub avg_bitrate: u32,
    pub dec_specific: DecoderSpecificDescriptor,
}

impl DecoderConfigDescriptor {
    /// Builds a decoder configuration for the given AAC configuration.
    pub fn new(config: &crate::types::AacConfig) -> (d: DecoderConfigDescriptor)
        ensures
            d.object_type_indication == 0x40,
            d.stream_type == 0x05,
            d.avg_bitrate == config.bitrate,
    {
        DecoderConfigDescriptor {
            object_type_indication: 0x40,
            stream_type: 0x05,
            up_stream: 0,
            buffer_size_db: 0,
            max_bitrate: config.bitrate,
            avg_bitrate: config.bitrate,
            dec_specific: DecoderSpecificDescriptor::new(config),
        }
    }

    /// The all-zero configuration used when the descriptor is absent.
    pub fn empty() -> (d: DecoderConfigDescriptor)
        ensures
            d.object_type_indication == 0,
    {
        DecoderConfigDescriptor {
            object_type_indication: 0,
            stream_type: 0,
            up_stream: 0,
            buffer_size_db: 0,
            max_bitrate: 0,
            avg_bitrate: 0,
            dec_specific: DecoderSpecificDescriptor { profile: 0, freq_index: 0, chan_conf: 0 },
        }
    }

    pub fn read_desc(data: &[u8], pos: &mut u64, size: u32) -> (r: Result<
        DecoderConfigDescriptor,
        Error,
    >)
        ensures
            r is Ok ==> *final(pos) > *old(pos),
            r matches Err(e) ==> e is Io || e is MalformedContainer,
    {
        let start: u64 = *pos;
        if size as u64 > u64::MAX - start {
            return Err(Error::MalformedContainer("descriptor end does not fit in 64 bits"));
        }
        let end: u64 = start + size as u64;
        let object_type_indication = match read_u8(data, pos) {
            Ok(v) => v,
            Err(e) => {
                return Err(e);
            },
        };
        let byte_a = match read_u8(data, pos) {
            Ok(v) => v,
            Err(e) => {
                return Err(e);
            },
        };
        let stream_type: u8 = byte_a / 4;
        let up_stream: u8 = byte_a % 4 / 2 * 2;
        let buffer_size_db = match read_u24(data, pos) {
            Ok(v) => v,
            Err(e) => {
                return Err(e);
            },
        };
        let max_bitrate = match read_u32(data, pos) {
            Ok(v) => v,
            Err(e) => {
                return Err(e);
            },
        };
        let avg_bitrate = match read_u32(data, pos) {
            Ok(v) => v,
            Err(e) => {
                return Err(e);
            },
        };
        let mut dec_specific: Option<DecoderSpecificDescriptor> = None;
        while *pos < end
            invariant
                end <= u64::MAX,
                *pos > *old(pos),
            decreases (if *pos < end { end - *pos } else { 0int }),
        {
            let (desc_tag, desc_size) = match read_desc(data, pos) {
                Ok(v) => v,
                Err(e) => {
                    return Err(e);
                },
            };
            if desc_tag == 0x05 {
                let d = match DecoderSpecificDescriptor::read_desc(data, pos) {
                    Ok(d) => d,
                    Err(e) => {
                        return Err(e);
                    },
                };
                dec_specific = Some(d);
                break ;
            } else {
                match skip_bytes(data, pos, desc_size as u64) {
                    Ok(()) => {},
                    Err(e) => {
                        return Err(e);
                    },
                }
            }
        }
        let dec_specific = match dec_specific {
            Some(d) => d,
            None => DecoderSpecificDescriptor { profile: 0, freq_index: 0, chan_conf: 0 },
        };
        Ok(
            DecoderConfigDescriptor {
                object_type_indication,
                stream_type,
                up_stream,
                buffer_size_db,
                max_bitrate,
                avg_bitrate,
                dec_specific,
            },
        )
    }
}

/// The decoder-specific audio configuration: audio object type, sampling
/// frequency index and channel configuration.
#[derive(Debug, Clone, Copy, PartialEq, Eq, Structural)]
pub struct DecoderSpecificDescriptor {
    pub profile: u8,
    pub freq_index: u8,
    pub chan_conf: u8,
}

/// The audio object type, including the 6-bit escape for types past 31.
pub fn get_audio_object_type(byte_a: u8, byte_b: u8) -> (profile: u8)
    ensures
        byte_a / 8 != 31 ==> profile == byte_a / 8,
{
    let mut profile: u8 = byte_a / 8;
    if profile == 31 {
        profile = 32 + ((byte_a % 8) * 4 + byte_b / 0x40);
    }
    profile
}

/// The channel configuration, whose position depends on the frequency
/// index and on whether the extended object-type escape was taken.
pub fn get_chan_conf(
    data: &[u8],
    pos: &mut u64,
    byte_b: u8,
    freq_index: u8,
    extended_profile: bool,
) -> (r: Result<u8, Error>)
    ensures
        match r {
            Ok(_) => *final(pos) >= *old(pos) && *final(pos) <= *old(pos) + 3,
            Err(e) => e is Io,
        },
{
    if freq_index == 15 {
        let sample_rate = match read_u24(data, pos) {
            Ok(v) => v,
            Err(e) => {
                return Err(e);
            },
        };
        Ok(((sample_rate / 16) % 16) as u8)
    } else if extended_profile {
        let byte_c = match read_u8(data, pos) {
            Ok(v) => v,
            Err(e) => {
                return Err(e);
            },
        };
        Ok((byte_b % 2) + (byte_c / 0x20) * 0x20)
    } else {
        Ok((byte_b / 8) % 16)
    }
}

impl DecoderSpecificDescriptor {
    /// Builds the decoder-specific audio configuration for the given AAC
    /// configuration.
    pub fn new(config: &crate::types::AacConfig) -> (d: DecoderSpecificDescriptor)
        ensures
            d.profile as int == crate::types::audio_object_code(config.profile),
    {
        DecoderSpecificDescriptor {
            profile: config.profile.code(),
            freq_index: config.freq_index.code(),
            chan_conf: config.chan_conf.code(),
        }
    }

    pub fn read_desc(data: &[u8], pos: &mut u64) -> (r: Result<DecoderSpecificDescriptor, Error>)
        ensures
            match r {
                Ok(_) => *final(pos) > *old(pos),
                Err(e) => e is Io,
            },
    {
        let byte_a = match read_u8(data, pos) {
            Ok(v) => v,
            Err(e) => {
                return Err(e);
            },
        };
        let byte_b = match read_u8(data, pos) {
            Ok(v) => v,
            Err(e) => {
                return Err(e);
            },
        };
        let profile = get_audio_object_type(byte_a, byte_b);
        let freq_index: u8;
        let chan_conf: u8;
        if profile > 31 {
            freq_index = (byte_b / 2) % 16;
            chan_conf = match get_chan_conf(data, pos, byte_b, freq_index, true) {
                Ok(v) => v,
                Err(e) => {
                    return Err(e);
                },
            };
        } else {
            freq_index = (byte_a % 8) * 2 + byte_b / 0x80;
            chan_conf = match get_chan_conf(data, pos, byte_b, freq_index, false) {
                Ok(v) => v,
                Err(e) => {
                    return Err(e);
                },
            };
        }
        Ok(DecoderSpecificDescriptor { profile, freq_index, chan_conf })
    }
}

/// The synchronization-layer configuration descriptor; its one byte is
/// read and discarded.
#[derive(Debug, Clone, Copy, PartialEq, Eq, Structural)]
pub struct SLConfigDescriptor {}

impl SLConfigDescriptor {
    pub fn new() -> (d: SLConfigDescriptor) {
        SLConfigDescriptor {  }
    }

    pub fn read_desc(data: &[u8], pos: &mut u64) -> (r: Result<SLConfigDescriptor, Error>)
        ensures
            match r {
                Ok(_) => *final(pos) == *old(pos) + 1,
                Err(e) => e is Io,
            },
    {
        match read_u8(data, pos) {
            Ok(_) => {},
            Err(e) => {
                return Err(e);
            },
        }
        Ok(SLConfigDescriptor {  })
    }
}

} // verus!
