//! Reader for the ISO Base Media File Format (MP4 / ISOBMFF).
//!
//! The crate parses a byte sequence of nested boxes (atoms), rebuilds the
//! per-track sample timeline from the sample tables of a flat movie and from
//! the movie fragments of a fragmented one, and finally copies every sample
//! into one contiguous buffer per track.

use vstd::prelude::*;

pub mod byteio;
pub mod error;
pub mod mp4box;
pub mod reader;
pub mod strutil;
pub mod types;

pub use error::Error;
pub use reader::{Mp4, Sample, Track};
pub use types::{TrackId, TrackKind};

verus! {

/// Parses the contents of a byte slice as MP4 data.
pub fn read(bytes: &[u8]) -> (r: Result<reader::Mp4, error::Error>)
    ensures
        r matches Ok(m) ==> reader::tracks_have_unique_ids(m.tracks@) && forall|i: int|
            0 <= i < m.tracks@.len() ==> reader::track_materialized(&(#[trigger] m.tracks@[i])),
{
    reader::Mp4::read_bytes(bytes)
}

} // verus!
