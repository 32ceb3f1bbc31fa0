//! Plain value types shared across the crate: FourCC codes, track kinds,
//! fixed-point numbers stored as raw integers, and the small enums used by
//! the audio sample-entry descriptors.

use crate::error::Error;
use crate::mp4box::{box_type_code, BoxType};
use vstd::prelude::*;

verus! {

/// A track id as stored in the track header and referenced by fragments.
pub type TrackId = u32;

/// The big-endian bytes of the 32-bit value `n`.
pub open spec fn u32_be_bytes(n: int) -> [u8; 4] {
    [
        ((n / 0x1000000) % 0x100) as u8,
        ((n / 0x10000) % 0x100) as u8,
        ((n / 0x100) % 0x100) as u8,
        (n % 0x100) as u8,
    ]
}

/// A four-character code: the raw bytes of a 32-bit box or handler type.
#[derive(Debug, Default, PartialEq, Eq, Clone, Copy)]
pub struct FourCC {
    pub value: [u8; 4],
}

/// The 32-bit value encoded by a FourCC's bytes.
pub open spec fn fourcc_code(f: FourCC) -> int {
    ((f.value@[0] as int) * 0x1000000) + ((f.value@[1] as int) * 0x10000) + ((
    f.value@[2] as int) * 0x100) + (f.value@[3] as int)
}

impl FourCC {
    /// Decodes a 32-bit big-endian value into its four bytes.
    pub fn from_u32(n: u32) -> (r: FourCC)
        ensures
            r.value == u32_be_bytes(n as int),
            fourcc_code(r) == n as int,
    {
        let b0: u8 = (n / 0x1000000) as u8;
        let b1: u8 = ((n / 0x10000) % 0x100) as u8;
        let b2: u8 = ((n / 0x100) % 0x100) as u8;
        let b3: u8 = (n % 0x100) as u8;
        let r = FourCC { value: [b0, b1, b2, b3] };
        proof {
            assert(r.value@ =~= u32_be_bytes(n as int)@);
            assert((n as int) / 0x1000000 < 0x100) by (nonlinear_arith)
                requires
                    n <= 0xffffffffu32,
            ;
        }
        r
    }

    /// Encodes the four bytes back into their 32-bit big-endian value.
    pub fn to_u32(&self) -> (n: u32)
        ensures
            n as int == fourcc_code(*self),
    {
        (self.value[0] as u32) * 0x1000000 + (self.value[1] as u32) * 0x10000 + (
        self.value[2] as u32) * 0x100 + (self.value[3] as u32)
    }

    /// The FourCC spelled by a box type's code.
    pub fn from_box_type(t: BoxType) -> (r: FourCC)
        ensures
            fourcc_code(r) == box_type_code(t),
            r.value == u32_be_bytes(box_type_code(t)),
    {
        FourCC::from_u32(t.to_u32())
    }
}

impl From<u32> for FourCC {
    fn from(n: u32) -> (r: FourCC) {
        FourCC::from_u32(n)
    }
}

impl vstd::std_specs::convert::FromSpecImpl<u32> for FourCC {
    open spec fn obeys_from_spec() -> bool {
        true
    }

    open spec fn from_spec(n: u32) -> FourCC {
        FourCC { value: u32_be_bytes(n as int) }
    }
}

impl From<FourCC> for u32 {
    fn from(f: FourCC) -> (r: u32) {
        f.to_u32()
    }
}

impl vstd::std_specs::convert::FromSpecImpl<FourCC> for u32 {
    open spec fn obeys_from_spec() -> bool {
        true
    }

    open spec fn from_spec(f: FourCC) -> u32 {
        fourcc_code(f) as u32
    }
}

impl From<[u8; 4]> for FourCC {
    fn from(value: [u8; 4]) -> (r: FourCC) {
        FourCC { value }
    }
}

impl vstd::std_specs::convert::FromSpecImpl<[u8; 4]> for FourCC {
    open spec fn obeys_from_spec() -> bool {
        true
    }

    open spec fn from_spec(value: [u8; 4]) -> FourCC {
        FourCC { value }
    }
}

impl From<BoxType> for FourCC {
    fn from(t: BoxType) -> (r: FourCC) {
        FourCC::from_box_type(t)
    }
}

impl vstd::std_specs::convert::FromSpecImpl<BoxType> for FourCC {
    open spec fn obeys_from_spec() -> bool {
        true
    }

    open spec fn from_spec(t: BoxType) -> FourCC {
        FourCC { value: u32_be_bytes(box_type_code(t)) }
    }
}

/// What kind of media a track carries, as far as this reader distinguishes.
#[derive(Debug, Clone, Copy, PartialEq, Eq, Structural)]
pub enum TrackKind {
    Video,
    Audio,
    Subtitle,
}

impl TrackKind {
    /// Classifies a handler-type FourCC (`vide`, `soun`, `sbtl`).
    pub fn from_fourcc(fourcc: &FourCC) -> (r: Result<TrackKind, Error>)
        ensures
            match r {
                Ok(k) => (k is Video <==> fourcc_code(*fourcc) == 0x76696465) && (k is Audio <==> fourcc_code(
                    *fourcc,
                ) == 0x736f756e) && (k is Subtitle <==> fourcc_code(*fourcc) == 0x7362746c),
                Err(e) => e is MalformedContainer && fourcc_code(*fourcc) != 0x76696465
                    && fourcc_code(*fourcc) != 0x736f756e && fourcc_code(*fourcc) != 0x7362746c,
            },
    {
        let code = fourcc.to_u32();
        if code == 0x76696465 {
            Ok(TrackKind::Video)
        } else if code == 0x736f756e {
            Ok(TrackKind::Audio)
        } else if code == 0x7362746c {
            Ok(TrackKind::Subtitle)
        } else {
            Err(Error::MalformedContainer("unsupported handler type"))
        }
    }

    /// The handler-type FourCC this kind is stored as.
    pub fn fourcc(self) -> (r: FourCC)
        ensures
            fourcc_code(r) == match self {
                TrackKind::Video => 0x76696465int,
                TrackKind::Audio => 0x736f756eint,
                TrackKind::Subtitle => 0x7362746cint,
            },
    {
        match self {
            TrackKind::Video => FourCC::from_u32(0x76696465),
            TrackKind::Audio => FourCC::from_u32(0x736f756e),
            TrackKind::Subtitle => FourCC::from_u32(0x7362746c),
        }
    }
}

/// An unsigned 8.8 fixed-point number, kept as its raw 16-bit encoding.
#[derive(Debug, Clone, Copy, PartialEq, Eq, Structural)]
pub struct FixedPointU8 {
    raw: u16,
}

impl FixedPointU8 {
    pub fn new(val: u8) -> (r: FixedPointU8)
        ensures
            r.raw_spec() == val * 0x100,
            r.value_spec() == val,
    {
        FixedPointU8 { raw: (val as u16) * 0x100 }
    }

    pub fn new_raw(val: u16) -> (r: FixedPointU8)
        ensures
            r.raw_spec() == val,
    {
        FixedPointU8 { raw: val }
    }

    /// The integer part of the fixed-point number.
    pub open spec fn value_spec(self) -> int {
        self.raw_spec() / 0x100
    }

    pub closed spec fn raw_spec(self) -> int {
        self.raw as int
    }

    pub fn value(&self) -> (r: u8)
        ensures
            r as int == self.value_spec(),
    {
        (self.raw / 0x100) as u8
    }

    pub fn raw_value(&self) -> (r: u16)
        ensures
            r as int == self.raw_spec(),
    {
        self.raw
    }
}

/// A signed 8.8 fixed-point number, kept as its raw 16-bit encoding.
/// Its integer part truncates toward zero.
#[derive(Debug, Clone, Copy, PartialEq, Eq, Structural)]
pub struct FixedPointI8 {
    raw: i16,
}

impl FixedPointI8 {
    pub fn new(val: i8) -> (r: FixedPointI8)
        ensures
            r.raw_spec() == val * 0x100,
    {
        FixedPointI8 { raw: (val as i16) * 0x100 }
    }

    pub fn new_raw(val: i16) -> (r: FixedPointI8)
        ensures
            r.raw_spec() == val,
    {
        FixedPointI8 { raw: val }
    }

    /// The integer part, truncated toward zero.
    pub open spec fn value_spec(self) -> int {
        if self.raw_spec() >= 0 {
            self.raw_spec() / 0x100
        } else {
            -((-self.raw_spec()) / 0x100)
        }
    }

    pub closed spec fn raw_spec(self) -> int {
        self.raw as int
    }

    pub fn value(&self) -> (r: i8)
        ensures
            r as int == self.value_spec(),
    {
        if self.raw >= 0 {
            (self.raw / 0x100) as i8
        } else if self.raw == i16::MIN {
            -128
        } else {
            let mag: i16 = -self.raw;
            -((mag / 0x100) as i8)
        }
    }

    pub fn raw_value(&self) -> (r: i16)
        ensures
            r as int == self.raw_spec(),
    {
        self.raw
    }
}

/// An unsigned 16.16 fixed-point number, kept as its raw 32-bit encoding.
#[derive(Debug, Clone, Copy, PartialEq, Eq, Structural)]
pub struct FixedPointU16 {
    raw: u32,
}

impl FixedPointU16 {
    pub fn new(val: u16) -> (r: FixedPointU16)
        ensures
            r.raw_spec() == val * 0x10000,
            r.value_spec() == val,
    {
        FixedPointU16 { raw: (val as u32) * 0x10000 }
    }

    pub fn new_raw(val: u32) -> (r: FixedPointU16)
        ensures
            r.raw_spec() == val,
    {
        FixedPointU16 { raw: val }
    }

    /// The integer part of the fixed-point number.
    pub open spec fn value_spec(self) -> int {
        self.raw_spec() / 0x10000
    }

    pub closed spec fn raw_spec(self) -> int {
        self.raw as int
    }

    pub fn value(&self) -> (r: u16)
        ensures
            r as int == self.value_spec(),
    {
        (self.raw / 0x10000) as u16
    }

    pub fn raw_value(&self) -> (r: u32)
        ensures
            r as int == self.raw_spec(),
    {
        self.raw
    }
}

/// The four metadata entries the `ilst` box distinguishes.
#[derive(Debug, Clone, Copy, PartialEq, Eq, Hash, Structural)]
pub enum MetadataKey {
    Title,
    Year,
    Poster,
    Summary,
}

/// The value type tag of a metadata `data` box.
#[derive(Debug, Clone, Copy, PartialEq, Eq, Structural)]
pub enum DataType {
    Binary,
    Text,
    Image,
    TempoCpil,
}

impl DataType {
    /// Decodes the 32-bit type tag of a metadata `data` box.
    pub fn from_u32(value: u32) -> (r: Result<DataType, Error>)
        ensures
            match r {
                Ok(t) => (t is Binary <==> value == 0) && (t is Text <==> value == 1) && (
                t is Image <==> value == 0xD) && (t is TempoCpil <==> value == 0x15),
                Err(e) => e is MalformedContainer && value != 0 && value != 1 && value != 0xD
                    && value != 0x15,
            },
    {
        match value {
            0x000000 => Ok(DataType::Binary),
            0x000001 => Ok(DataType::Text),
            0x00000D => Ok(DataType::Image),
            0x000015 => Ok(DataType::TempoCpil),
            _ => Err(Error::MalformedContainer("invalid data type")),
        }
    }
}

impl Default for DataType {
    fn default() -> (r: DataType)
        ensures
            r is Binary,
    {
        DataType::Binary
    }
}

/// Converts an MP4-epoch timestamp (seconds since 1904-01-01) to the Unix
/// epoch where possible; earlier values are passed through unchanged.
pub fn creation_time(seconds: u64) -> (r: u64)
    ensures
        seconds >= 2082844800 ==> r == seconds - 2082844800,
        seconds < 2082844800 ==> r == seconds,
{
    if seconds >= 2082844800 {
        seconds - 2082844800
    } else {
        seconds
    }
}

/// The codec families a media track may carry.
#[derive(Debug, Clone, Copy, PartialEq, Eq, Structural)]
pub enum MediaType {
    H264,
    H265,
    VP9,
    AAC,
    TTXT,
}

impl MediaType {
    /// The conventional short name of the codec family.
    pub fn as_str(&self) -> (r: &'static str)
        ensures
            r@.len() > 0,
    {
        let s: &'static str = match self {
            MediaType::H264 => "h264",
            MediaType::H265 => "h265",
            MediaType::VP9 => "vp9",
            MediaType::AAC => "aac",
            MediaType::TTXT => "ttxt",
        };
        proof {
            reveal_strlit("h264");
            reveal_strlit("h265");
            reveal_strlit("vp9");
            reveal_strlit("aac");
            reveal_strlit("ttxt");
        }
        s
    }
}

/// An AVC profile as encoded in the sequence parameter set.
#[derive(Debug, PartialEq, Eq, Clone, Copy, Structural)]
pub enum AvcProfile {
    AvcConstrainedBaseline,
    AvcBaseline,
    AvcMain,
    AvcExtended,
    AvcHigh,
}

impl AvcProfile {
    /// Classifies a profile indication byte together with the first
    /// constraint-set byte.
    pub fn from_profile_bytes(profile: u8, constraints: u8) -> (r: Result<AvcProfile, Error>)
        ensures
            r is Ok <==> profile == 66 || profile == 77 || profile == 88 || profile == 100,
            r matches Err(e) ==> e is MalformedContainer,
    {
        let constraint_set1_flag: u8 = (constraints / 0x40) % 2;
        match (profile, constraint_set1_flag) {
            (66, 1) => Ok(AvcProfile::AvcConstrainedBaseline),
            (66, 0) => Ok(AvcProfile::AvcBaseline),
            (77, _) => Ok(AvcProfile::AvcMain),
            (88, _) => Ok(AvcProfile::AvcExtended),
            (100, _) => Ok(AvcProfile::AvcHigh),
            _ => Err(Error::MalformedContainer("unsupported avc profile")),
        }
    }
}

/// The MPEG-4 audio object types.
#[derive(Debug, PartialEq, Eq, Clone, Copy, Structural)]
pub enum AudioObjectType {
    AacMain,
    AacLowComplexity,
    AacScalableSampleRate,
    AacLongTermPrediction,
    SpectralBandReplication,
    AACScalable,
    TwinVQ,
    CodeExcitedLinearPrediction,
    HarmonicVectorExcitationCoding,
    TextToSpeechtInterface,
    MainSynthetic,
    WavetableSynthesis,
    GeneralMIDI,
    AlgorithmicSynthesis,
    ErrorResilientAacLowComplexity,
    ErrorResilientAacLongTermPrediction,
    ErrorResilientAacScalable,
    ErrorResilientAacTwinVQ,
    ErrorResilientAacBitSlicedArithmeticCoding,
    ErrorResilientAacLowDelay,
    ErrorResilientCodeExcitedLinearPrediction,
    ErrorResilientHarmonicVectorExcitationCoding,
    ErrorResilientHarmonicIndividualLinesNoise,
    ErrorResilientParametric,
    SinuSoidalCoding,
    ParametricStereo,
    MpegSurround,
    MpegLayer1,
    MpegLayer2,
    MpegLayer3,
    DirectStreamTransfer,
    AudioLosslessCoding,
    ScalableLosslessCoding,
    ScalableLosslessCodingNoneCore,
    ErrorResilientAacEnhancedLowDelay,
    SymbolicMusicRepresentationSimple,
    SymbolicMusicRepresentationMain,
    UnifiedSpeechAudioCoding,
    SpatialAudioObjectCoding,
    LowDelayMpegSurround,
    SpatialAudioObjectCodingDialogueEnhancement,
    AudioSync,
}

/// The wire code of each audio object type.
pub open spec fn audio_object_code(t: AudioObjectType) -> int {
    match t {
        AudioObjectType::AacMain => 1,
        AudioObjectType::AacLowComplexity => 2,
        AudioObjectType::AacScalableSampleRate => 3,
        AudioObjectType::AacLongTermPrediction => 4,
        AudioObjectType::SpectralBandReplication => 5,
        AudioObjectType::AACScalable => 6,
        AudioObjectType::TwinVQ => 7,
        AudioObjectType::CodeExcitedLinearPrediction => 8,
        AudioObjectType::HarmonicVectorExcitationCoding => 9,
        AudioObjectType::TextToSpeechtInterface => 12,
        AudioObjectType::MainSynthetic => 13,
        AudioObjectType::WavetableSynthesis => 14,
        AudioObjectType::GeneralMIDI => 15,
        AudioObjectType::AlgorithmicSynthesis => 16,
        AudioObjectType::ErrorResilientAacLowComplexity => 17,
        AudioObjectType::ErrorResilientAacLongTermPrediction => 19,
        AudioObjectType::ErrorResilientAacScalable => 20,
        AudioObjectType::ErrorResilientAacTwinVQ => 21,
        AudioObjectType::ErrorResilientAacBitSlicedArithmeticCoding => 22,
        AudioObjectType::ErrorResilientAacLowDelay => 23,
        AudioObjectType::ErrorResilientCodeExcitedLinearPrediction => 24,
        AudioObjectType::ErrorResilientHarmonicVectorExcitationCoding => 25,
        AudioObjectType::ErrorResilientHarmonicIndividualLinesNoise => 26,
        AudioObjectType::ErrorResilientParametric => 27,
        AudioObjectType::SinuSoidalCoding => 28,
        AudioObjectType::ParametricStereo => 29,
        AudioObjectType::MpegSurround => 30,
        AudioObjectType::MpegLayer1 => 32,
        AudioObjectType::MpegLayer2 => 33,
        AudioObjectType::MpegLayer3 => 34,
        AudioObjectType::DirectStreamTransfer => 35,
        AudioObjectType::AudioLosslessCoding => 36,
        AudioObjectType::ScalableLosslessCoding => 37,
        AudioObjectType::ScalableLosslessCodingNoneCore => 38,
        AudioObjectType::ErrorResilientAacEnhancedLowDelay => 39,
        AudioObjectType::SymbolicMusicRepresentationSimple => 40,
        AudioObjectType::SymbolicMusicRepresentationMain => 41,
        AudioObjectType::UnifiedSpeechAudioCoding => 42,
        AudioObjectType::SpatialAudioObjectCoding => 43,
        AudioObjectType::LowDelayMpegSurround => 44,
        AudioObjectType::SpatialAudioObjectCodingDialogueEnhancement => 45,
        AudioObjectType::AudioSync => 46,
    }
}

impl AudioObjectType {
    /// Decodes an audio object type code.
    pub fn from_u8(value: u8) -> (r: Result<AudioObjectType, Error>)
        ensures
            r matches Ok(t) ==> audio_object_code(t) == value as int,
            r is Ok <==> (1 <= value <= 46 && value != 10 && value != 11 && value != 18
                && value != 31),
            r matches Err(e) ==> e is MalformedContainer,
    {
        match value {
            1 => Ok(AudioObjectType::AacMain),
            2 => Ok(AudioObjectType::AacLowComplexity),
            3 => Ok(AudioObjectType::AacScalableSampleRate),
            4 => Ok(AudioObjectType::AacLongTermPrediction),
            5 => Ok(AudioObjectType::SpectralBandReplication),
            6 => Ok(AudioObjectType::AACScalable),
            7 => Ok(AudioObjectType::TwinVQ),
            8 => Ok(AudioObjectType::CodeExcitedLinearPrediction),
            9 => Ok(AudioObjectType::HarmonicVectorExcitationCoding),
            12 => Ok(AudioObjectType::TextToSpeechtInterface),
            13 => Ok(AudioObjectType::MainSynthetic),
            14 => Ok(AudioObjectType::WavetableSynthesis),
            15 => Ok(AudioObjectType::GeneralMIDI),
            16 => Ok(AudioObjectType::AlgorithmicSynthesis),
            17 => Ok(AudioObjectType::ErrorResilientAacLowComplexity),
            19 => Ok(AudioObjectType::ErrorResilientAacLongTermPrediction),
            20 => Ok(AudioObjectType::ErrorResilientAacScalable),
            21 => Ok(AudioObjectType::ErrorResilientAacTwinVQ),
            22 => Ok(AudioObjectType::ErrorResilientAacBitSlicedArithmeticCoding),
            23 => Ok(AudioObjectType::ErrorResilientAacLowDelay),
            24 => Ok(AudioObjectType::ErrorResilientCodeExcitedLinearPrediction),
            25 => Ok(AudioObjectType::ErrorResilientHarmonicVectorExcitationCoding),
            26 => Ok(AudioObjectType::ErrorResilientHarmonicIndividualLinesNoise),
            27 => Ok(AudioObjectType::ErrorResilientParametric),
            28 => Ok(AudioObjectType::SinuSoidalCoding),
            29 => Ok(AudioObjectType::ParametricStereo),
            30 => Ok(AudioObjectType::MpegSurround),
            32 => Ok(AudioObjectType::MpegLayer1),
            33 => Ok(AudioObjectType::MpegLayer2),
            34 => Ok(AudioObjectType::MpegLayer3),
            35 => Ok(AudioObjectType::DirectStreamTransfer),
            36 => Ok(AudioObjectType::AudioLosslessCoding),
            37 => Ok(AudioObjectType::ScalableLosslessCoding),
            38 => Ok(AudioObjectType::ScalableLosslessCodingNoneCore),
            39 => Ok(AudioObjectType::ErrorResilientAacEnhancedLowDelay),
            40 => Ok(AudioObjectType::SymbolicMusicRepresentationSimple),
            41 => Ok(AudioObjectType::SymbolicMusicRepresentationMain),
            42 => Ok(AudioObjectType::UnifiedSpeechAudioCoding),
            43 => Ok(AudioObjectType::SpatialAudioObjectCoding),
            44 => Ok(AudioObjectType::LowDelayMpegSurround),
            45 => Ok(AudioObjectType::SpatialAudioObjectCodingDialogueEnhancement),
            46 => Ok(AudioObjectType::AudioSync),
            _ => Err(Error::MalformedContainer("invalid audio object type")),
        }
    }
}

/// The fixed sampling-frequency table of MPEG-4 audio.
#[derive(Debug, PartialEq, Eq, Clone, Copy, Structural)]
pub enum SampleFreqIndex {
    Freq96000,
    Freq88200,
    Freq64000,
    Freq48000,
    Freq44100,
    Freq32000,
    Freq24000,
    Freq22050,
    Freq16000,
    Freq12000,
    Freq11025,
    Freq8000,
    Freq7350,
}

impl SampleFreqIndex {
    /// Decodes a 4-bit frequency index.
    pub fn from_u8(value: u8) -> (r: Result<SampleFreqIndex, Error>)
        ensures
            r is Ok <==> value <= 0xc,
            r matches Ok(t) ==> t.freq_spec() > 0,
            r matches Err(e) ==> e is MalformedContainer,
    {
        match value {
            0x0 => Ok(SampleFreqIndex::Freq96000),
            0x1 => Ok(SampleFreqIndex::Freq88200),
            0x2 => Ok(SampleFreqIndex::Freq64000),
            0x3 => Ok(SampleFreqIndex::Freq48000),
            0x4 => Ok(SampleFreqIndex::Freq44100),
            0x5 => Ok(SampleFreqIndex::Freq32000),
            0x6 => Ok(SampleFreqIndex::Freq24000),
            0x7 => Ok(SampleFreqIndex::Freq22050),
            0x8 => Ok(SampleFreqIndex::Freq16000),
            0x9 => Ok(SampleFreqIndex::Freq12000),
            0xa => Ok(SampleFreqIndex::Freq11025),
            0xb => Ok(SampleFreqIndex::Freq8000),
            0xc => Ok(SampleFreqIndex::Freq7350),
            _ => Err(Error::MalformedContainer("invalid sampling frequency index")),
        }
    }

    /// The frequency in hertz that the index stands for.
    pub open spec fn freq_spec(self) -> int {
        match self {
            SampleFreqIndex::Freq96000 => 96000,
            SampleFreqIndex::Freq88200 => 88200,
            SampleFreqIndex::Freq64000 => 64000,
            SampleFreqIndex::Freq48000 => 48000,
            SampleFreqIndex::Freq44100 => 44100,
            SampleFreqIndex::Freq32000 => 32000,
            SampleFreqIndex::Freq24000 => 24000,
            SampleFreqIndex::Freq22050 => 22050,
            SampleFreqIndex::Freq16000 => 16000,
            SampleFreqIndex::Freq12000 => 12000,
            SampleFreqIndex::Freq11025 => 11025,
            SampleFreqIndex::Freq8000 => 8000,
            SampleFreqIndex::Freq7350 => 7350,
        }
    }

    /// The frequency in hertz.
    pub fn freq(&self) -> (r: u32)
        ensures
            r as int == self.freq_spec(),
    {
        match *self {
            SampleFreqIndex::Freq96000 => 96000,
            SampleFreqIndex::Freq88200 => 88200,
            SampleFreqIndex::Freq64000 => 64000,
            SampleFreqIndex::Freq48000 => 48000,
            SampleFreqIndex::Freq44100 => 44100,
            SampleFreqIndex::Freq32000 => 32000,
            SampleFreqIndex::Freq24000 => 24000,
            SampleFreqIndex::Freq22050 => 22050,
            SampleFreqIndex::Freq16000 => 16000,
            SampleFreqIndex::Freq12000 => 12000,
            SampleFreqIndex::Freq11025 => 11025,
            SampleFreqIndex::Freq8000 => 8000,
            SampleFreqIndex::Freq7350 => 7350,
        }
    }
}

/// The loudspeaker channel configurations.
#[derive(Debug, PartialEq, Eq, Clone, Copy, Structural)]
pub enum ChannelConfig {
    Mono,
    Stereo,
    Three,
    Four,
    Five,
    FiveOne,
    SevenOne,
}

impl ChannelConfig {
    /// Decodes a 4-bit channel configuration.
    pub fn from_u8(value: u8) -> (r: Result<ChannelConfig, Error>)
        ensures
            r is Ok <==> 1 <= value <= 7,
            r matches Err(e) ==> e is MalformedContainer,
    {
        match value {
            0x1 => Ok(ChannelConfig::Mono),
            0x2 => Ok(ChannelConfig::Stereo),
            0x3 => Ok(ChannelConfig::Three),
            0x4 => Ok(ChannelConfig::Four),
            0x5 => Ok(ChannelConfig::Five),
            0x6 => Ok(ChannelConfig::FiveOne),
            0x7 => Ok(ChannelConfig::SevenOne),
            _ => Err(Error::MalformedContainer("invalid channel configuration")),
        }
    }
}

impl AudioObjectType {
    /// The wire code of the audio object type.
    pub fn code(&self) -> (r: u8)
        ensures
            r as int == audio_object_code(*self),
    {
        match *self {
            AudioObjectType::AacMain => 1,
            AudioObjectType::AacLowComplexity => 2,
            AudioObjectType::AacScalableSampleRate => 3,
            AudioObjectType::AacLongTermPrediction => 4,
            AudioObjectType::SpectralBandReplication => 5,
            AudioObjectType::AACScalable => 6,
            AudioObjectType::TwinVQ => 7,
            AudioObjectType::CodeExcitedLinearPrediction => 8,
            AudioObjectType::HarmonicVectorExcitationCoding => 9,
            AudioObjectType::TextToSpeechtInterface => 12,
            AudioObjectType::MainSynthetic => 13,
            AudioObjectType::WavetableSynthesis => 14,
            AudioObjectType::GeneralMIDI => 15,
            AudioObjectType::AlgorithmicSynthesis => 16,
            AudioObjectType::ErrorResilientAacLowComplexity => 17,
            AudioObjectType::ErrorResilientAacLongTermPrediction => 19,
            AudioObjectType::ErrorResilientAacScalable => 20,
            AudioObjectType::ErrorResilientAacTwinVQ => 21,
            AudioObjectType::ErrorResilientAacBitSlicedArithmeticCoding => 22,
            AudioObjectType::ErrorResilientAacLowDelay => 23,
            AudioObjectType::ErrorResilientCodeExcitedLinearPrediction => 24,
            AudioObjectType::ErrorResilientHarmonicVectorExcitationCoding => 25,
            AudioObjectType::ErrorResilientHarmonicIndividualLinesNoise => 26,
            AudioObjectType::ErrorResilientParametric => 27,
            AudioObjectType::SinuSoidalCoding => 28,
            AudioObjectType::ParametricStereo => 29,
            AudioObjectType::MpegSurround => 30,
            AudioObjectType::MpegLayer1 => 32,
            AudioObjectType::MpegLayer2 => 33,
            AudioObjectType::MpegLayer3 => 34,
            AudioObjectType::DirectStreamTransfer => 35,
            AudioObjectType::AudioLosslessCoding => 36,
            AudioObjectType::ScalableLosslessCoding => 37,
            AudioObjectType::ScalableLosslessCodingNoneCore => 38,
            AudioObjectType::ErrorResilientAacEnhancedLowDelay => 39,
            AudioObjectType::SymbolicMusicRepresentationSimple => 40,
            AudioObjectType::SymbolicMusicRepresentationMain => 41,
            AudioObjectType::UnifiedSpeechAudioCoding => 42,
            AudioObjectType::SpatialAudioObjectCoding => 43,
            AudioObjectType::LowDelayMpegSurround => 44,
            AudioObjectType::SpatialAudioObjectCodingDialogueEnhancement => 45,
            AudioObjectType::AudioSync => 46,
        }
    }
}

impl SampleFreqIndex {
    /// The 4-bit wire code of the frequency index.
    pub fn code(&self) -> (r: u8)
        ensures
            r <= 0xc,
    {
        match *self {
            SampleFreqIndex::Freq96000 => 0x0,
            SampleFreqIndex::Freq88200 => 0x1,
            SampleFreqIndex::Freq64000 => 0x2,
            SampleFreqIndex::Freq48000 => 0x3,
            SampleFreqIndex::Freq44100 => 0x4,
            SampleFreqIndex::Freq32000 => 0x5,
            SampleFreqIndex::Freq24000 => 0x6,
            SampleFreqIndex::Freq22050 => 0x7,
            SampleFreqIndex::Freq16000 => 0x8,
            SampleFreqIndex::Freq12000 => 0x9,
            SampleFreqIndex::Freq11025 => 0xa,
            SampleFreqIndex::Freq8000 => 0xb,
            SampleFreqIndex::Freq7350 => 0xc,
        }
    }
}

impl ChannelConfig {
    /// The 4-bit wire code of the channel configuration.
    pub fn code(&self) -> (r: u8)
        ensures
            1 <= r <= 7,
    {
        match *self {
            ChannelConfig::Mono => 0x1,
            ChannelConfig::Stereo => 0x2,
            ChannelConfig::Three => 0x3,
            ChannelConfig::Four => 0x4,
            ChannelConfig::Five => 0x5,
            ChannelConfig::FiveOne => 0x6,
            ChannelConfig::SevenOne => 0x7,
        }
    }
}

/// Codec parameters for writing or describing an AVC track.
#[derive(Debug, PartialEq, Eq, Clone)]
pub struct AvcConfig {
    pub width: u16,
    pub height: u16,
    pub seq_param_set: Vec<u8>,
    pub pic_param_set: Vec<u8>,
}

/// Codec parameters for an HEVC track.
#[derive(Debug, PartialEq, Eq, Clone, Copy, Structural)]
pub struct HevcConfig {
    pub width: u16,
    pub height: u16,
}

/// Codec parameters for a VP9 track.
#[derive(Debug, PartialEq, Eq, Clone, Copy, Structural)]
pub struct Vp9Config {
    pub width: u16,
    pub height: u16,
}

/// Codec parameters for an AAC track.
#[derive(Debug, PartialEq, Eq, Clone, Copy, Structural)]
pub struct AacConfig {
    pub bitrate: u32,
    pub profile: AudioObjectType,
    pub freq_index: SampleFreqIndex,
    pub chan_conf: ChannelConfig,
}

impl Default for AacConfig {
    fn default() -> (r: AacConfig)
        ensures
            r.bitrate == 0,
            r.profile is AacLowComplexity,
            r.freq_index is Freq48000,
            r.chan_conf is Stereo,
    {
        AacConfig {
            bitrate: 0,
            profile: AudioObjectType::AacLowComplexity,
            freq_index: SampleFreqIndex::Freq48000,
            chan_conf: ChannelConfig::Stereo,
        }
    }
}

/// Codec parameters for a timed-text track.
#[derive(Debug, PartialEq, Eq, Clone, Copy, Structural)]
pub struct TtxtConfig {}

/// The codec parameters of one track, whichever codec it uses.
#[derive(Debug, PartialEq, Eq, Clone)]
pub enum MediaConfig {
    AvcConfig(AvcConfig),
    HevcConfig(HevcConfig),
    Vp9Config(Vp9Config),
    AacConfig(AacConfig),
    TtxtConfig(TtxtConfig),
}

} // verus!
