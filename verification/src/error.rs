//! The single error type that every parsing operation returns.

use crate::mp4box::BoxType;
use vstd::prelude::*;

verus! {

/// Why a parse was aborted.  The whole read either succeeds or reports
/// exactly one of these; there is no partial result.
#[derive(Debug, Clone, Copy)]
pub enum Error {
    /// A header or size invariant of the container was violated: a child box
    /// larger than the space remaining in its parent, an invalid 64-bit size
    /// escape, a table entry count that cannot fit in its box, or arithmetic
    /// on offsets, sizes or timestamps that would leave the fixed-width range.
    MalformedContainer(&'static str),
    /// A structurally mandatory child box is absent.
    MissingRequiredBox(BoxType),
    /// A movie fragment references a track id that the movie box does not declare.
    UnresolvedTrackReference(u32),
    /// The byte source ended before the requested bytes could be read.
    Io,
}

} // verus!
