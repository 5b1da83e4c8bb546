//! Result records returned to the caller, and the decode primitive's report.
use vstd::prelude::*;

verus! {

/// A MP3 frame, referencing the decoded audio of that frame.
///
/// Metadata only: valid independent of any sample buffer.
#[derive(Clone, Copy, Debug, PartialEq, Eq, Structural)]
pub struct FrameInfo {
    /// This frame's sample rate in hertz.
    pub sample_rate: i32,
    /// The number of channels in this frame.
    pub channels: usize,
    /// MPEG layer used by this file.
    pub layer: usize,
    /// Current bitrate as of this frame, in kb/s.
    pub bitrate: i32,
}

/// A MP3 frame, owning the decoded audio of that frame.
#[derive(Clone, Debug)]
pub struct Frame {
    /// The decoded audio held by this frame. Channels are interleaved.
    pub data: Vec<i16>,
    /// This frame's sample rate in hertz.
    pub sample_rate: i32,
    /// The number of channels in this frame.
    pub channels: usize,
    /// MPEG layer used by this file.
    pub layer: usize,
    /// Current bitrate as of this frame, in kb/s.
    pub bitrate: i32,
}

/// What one invocation of the decode primitive reported: how many samples it
/// produced, how many buffered bytes it examined or skipped, and the frame
/// metadata it saw.
///
/// The primitive always reports `bytes_consumed`, even when it produced no
/// samples; that is what lets the drive loop discard garbage without ever
/// losing synchronization.
#[derive(Clone, Copy, Debug, PartialEq, Eq, Structural)]
pub struct DecodeReport {
    /// Samples decoded per channel (so `channels * samples` interleaved
    /// values were written to the sample buffer); zero on failure.
    pub samples: usize,
    /// Buffered bytes examined or skipped; the ring buffer front advances by
    /// exactly this much.
    pub bytes_consumed: usize,
    /// Metadata of the frame the primitive saw (meaningful when `samples > 0`).
    pub info: FrameInfo,
}

} // verus!
