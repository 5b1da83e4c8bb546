//! Reusable buffer for interleaved decoded audio samples.
use vstd::prelude::*;

use crate::MAX_SAMPLES_PER_FRAME;

verus! {

/// A collection of pcm data decoded from a frame.
///
/// The data is stored in a channel interleaved fashion; the associated
/// [`FrameInfo`](crate::FrameInfo) determines its structure. A freshly
/// constructed buffer is empty but holds reserved capacity for one maximal
/// frame, so that reusing it across decode calls needs no per-frame
/// allocation.
///
/// After a successful decode its content is exactly the samples of the latest
/// frame: length `channels * samples_per_channel`, nothing stale from an
/// earlier, larger frame remains visible.
#[derive(Debug)]
pub struct Pcm {
    data: Vec<i16>,
}

impl View for Pcm {
    type V = Seq<i16>;

    closed spec fn view(&self) -> Seq<i16> {
        self.data@
    }
}

impl Pcm {
    /// Construct a new re-usable pcm data buffer.
    pub fn new() -> (pcm: Self)
        ensures
            pcm@ == Seq::<i16>::empty(),
    {
        Self { data: Vec::with_capacity(MAX_SAMPLES_PER_FRAME) }
    }

    /// The number of interleaved samples currently held.
    pub fn len(&self) -> (n: usize)
        ensures
            n == self@.len(),
    {
        self.data.len()
    }

    /// Reserve room for at least `capacity` samples in total.
    ///
    /// The reservation itself never fails short of the allocator aborting the
    /// process, so the result is always `true`; the content is untouched.
    pub fn try_reserve(&mut self, capacity: usize) -> (ok: bool)
        ensures
            ok,
            final(self)@ == old(self)@,
    {
        if capacity > self.data.len() {
            let additional: usize = capacity - self.data.len();
            self.data.reserve(additional);
        }
        true
    }

    /// Resize to exactly `samples` interleaved samples, zero-filling any
    /// sample positions that did not exist before.
    pub fn resize(&mut self, samples: usize)
        ensures
            final(self)@.len() == samples,
            forall|i: int|
                0 <= i < samples && i < old(self)@.len() ==> final(self)@[i] == old(self)@[i],
            forall|i: int| old(self)@.len() <= i < samples ==> final(self)@[i] == 0i16,
    {
        self.data.resize(samples, 0i16);
    }

    /// Resize to the given topology: `channels * frames` interleaved samples.
    pub fn resize_topology(&mut self, channels: usize, frames: usize)
        requires
            channels * frames <= usize::MAX,
        ensures
            final(self)@.len() == channels * frames,
            forall|i: int|
                0 <= i < channels * frames && i < old(self)@.len()
                    ==> final(self)@[i] == old(self)@[i],
            forall|i: int|
                old(self)@.len() <= i < channels * frames ==> final(self)@[i] == 0i16,
    {
        self.resize(channels * frames);
    }

    /// Read-only access to the interleaved samples.
    pub fn as_interleaved(&self) -> (samples: &[i16])
        ensures
            samples@ == self@,
    {
        self.data.as_slice()
    }

    /// Replace the content with the samples of the latest decoded frame.
    ///
    /// Afterwards the buffer holds exactly `samples`: a smaller frame stored
    /// after a larger one leaves nothing of the larger frame visible.
    pub fn store_frame(&mut self, samples: &[i16])
        ensures
            final(self)@ == samples@,
    {
        self.data.clear();
        self.data.extend_from_slice(samples);
        proof {
            assert(final(self)@ =~= samples@);
        }
    }
}

} // verus!
