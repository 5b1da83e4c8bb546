//! Streaming front-end over an MPEG audio frame decoder.
//!
//! The crate owns the buffering, refill and resynchronization logic that a
//! frame-oriented decoder needs but does not itself provide: a byte ring
//! buffer fed incrementally from a reader, and a drive loop that interprets
//! the decode primitive's partial-progress reports (insufficient data,
//! skipped garbage, success) and decides when input exhaustion means true
//! end-of-stream.
//!
//! The bit-exact frame decoding itself is an external primitive (the
//! `minimp3-sys` bindings); the I/O shell that runs it lives outside this
//! library and feeds its reports back in as plain values.
use vstd::prelude::*;

mod error;
mod frame;
mod pcm;
mod ring;
mod driver;

pub use error::Error;
pub use frame::{DecodeReport, Frame, FrameInfo};
pub use pcm::Pcm;
pub use ring::ByteRing;
pub use driver::{classify_decode, DecoderCore, SessionStep, StepOutcome};

verus! {

/// Maximum number of samples present in a MP3 frame (`MINIMP3_MAX_SAMPLES_PER_FRAME`).
pub const MAX_SAMPLES_PER_FRAME: usize = 2304;

/// Capacity of the byte ring buffer that holds the undecoded tail of the input.
pub const BUFFER_SIZE: usize = MAX_SAMPLES_PER_FRAME * 15;

/// Ring-buffer occupancy below which one more read is issued before decoding.
pub const REFILL_TRIGGER: usize = MAX_SAMPLES_PER_FRAME * 8;

/// Size of the scratch buffer that stages one refill read.
pub const REFILL_CHUNK: usize = MAX_SAMPLES_PER_FRAME * 5;

} // verus!
