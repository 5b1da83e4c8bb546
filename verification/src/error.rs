//! Error kinds of the streaming decoder.
use vstd::prelude::*;

verus! {

/// Why a decode step, or a whole "next frame" call, did not produce a frame.
///
/// `InsufficientData` and `SkippedData` are transient: the drive loop absorbs
/// them and retries, so they never cross the public boundary of a complete
/// "next frame" call. Only `Eof`, `IoError` and `AllocationFailure` are
/// surfaced to a caller iterating frames.
#[derive(Clone, Copy, Debug, PartialEq, Eq, Structural)]
pub enum Error {
    /// The buffered bytes are too few to even attempt a parse; more input is
    /// needed before the primitive can make progress.
    InsufficientData,
    /// Bytes that do not parse as a frame header were discarded while
    /// resynchronizing; no frame was produced this step.
    SkippedData,
    /// The input source is exhausted and no undecoded frame remains buffered.
    Eof,
    /// The reader failed; the drive loop aborts immediately.
    IoError,
    /// Buffer space could not be obtained; the drive loop aborts immediately.
    AllocationFailure,
}

} // verus!
