//! The drive loop's decision logic: refill policy, outcome classification,
//! and the end-of-stream rule.
//!
//! One "produce next frame" call is a session of iterations. Each iteration
//! optionally performs one read (when occupancy is below the refill trigger),
//! runs the decode primitive once, advances the ring buffer by exactly the
//! bytes the primitive consumed, and classifies the result. The
//! classification is a pure function of the primitive's report and of how
//! many bytes the optional read returned, so the blocking and the suspending
//! I/O shells share it verbatim.
use vstd::prelude::*;

use crate::error::Error;
use crate::frame::{DecodeReport, FrameInfo};
use crate::ring::ByteRing;
use crate::REFILL_TRIGGER;

verus! {

/// What one drive-loop iteration decided.
#[derive(Clone, Copy, Debug, PartialEq, Eq, Structural)]
pub enum StepOutcome {
    /// A frame was decoded; the session ends, handing this metadata out.
    Success(FrameInfo),
    /// A transient condition (insufficient data or skipped garbage) was
    /// absorbed; the session loops for another iteration.
    Retry,
    /// The source is exhausted and the buffered bytes yield no further frame;
    /// the session ends as clean end-of-stream.
    Eof,
}

/// How the decode primitive's report reads on its own, before the
/// end-of-stream rule is applied: a frame, skipped garbage, or too few bytes.
pub open spec fn spec_decode_result(report: DecodeReport) -> Result<FrameInfo, Error> {
    if report.samples > 0 {
        Ok(report.info)
    } else if report.bytes_consumed > 0 {
        Err(Error::SkippedData)
    } else {
        Err(Error::InsufficientData)
    }
}

/// The whole per-iteration decision: a transient decode result becomes
/// end-of-stream exactly when the iteration's read observed an exhausted
/// source (`Some(0)`), and is retried otherwise; success always goes through,
/// and never depends on the read.
pub open spec fn spec_step_outcome(report: DecodeReport, bytes_read: Option<usize>) -> StepOutcome {
    match spec_decode_result(report) {
        Ok(info) => StepOutcome::Success(info),
        Err(_) => {
            if bytes_read == Some(0usize) {
                StepOutcome::Eof
            } else {
                StepOutcome::Retry
            }
        },
    }
}

/// Classify the decode primitive's report: a frame if it produced samples,
/// [`Error::SkippedData`] if it consumed bytes without producing samples, and
/// [`Error::InsufficientData`] if it could not even attempt a parse.
pub fn classify_decode(report: &DecodeReport) -> (result: Result<FrameInfo, Error>)
    ensures
        result == spec_decode_result(*report),
{
    if report.samples > 0 {
        Ok(report.info)
    } else if report.bytes_consumed > 0 {
        Err(Error::SkippedData)
    } else {
        Err(Error::InsufficientData)
    }
}

/// The verified heart of the streaming decoder: the byte ring buffer together
/// with the refill and classification policy.
///
/// The I/O shell around it owns the reader and the decode primitive; this
/// core decides when to read, absorbs the bytes read, advances past consumed
/// input, and classifies every outcome — identically for the blocking and
/// the suspending shell.
pub struct DecoderCore {
    ring: ByteRing,
}

impl DecoderCore {
    /// The ring buffer's well-formedness carries over.
    pub closed spec fn wf(&self) -> bool {
        self.ring.wf()
    }

    /// The undecoded bytes currently buffered, front first.
    pub closed spec fn buffered(&self) -> Seq<u8> {
        self.ring@
    }

    /// A fresh core with an empty ring buffer.
    pub fn new() -> (core: Self)
        ensures
            core.wf(),
            core.buffered() == Seq::<u8>::empty(),
    {
        Self { ring: ByteRing::new() }
    }

    /// Number of buffered bytes.
    pub fn buffered_len(&self) -> (n: usize)
        requires
            self.wf(),
        ensures
            n == self.buffered().len(),
    {
        self.ring.len()
    }

    /// Whether this iteration must pull more bytes before decoding: exactly
    /// when occupancy is below [`REFILL_TRIGGER`].
    pub fn needs_refill(&self) -> (refill: bool)
        requires
            self.wf(),
        ensures
            refill <==> self.buffered().len() < REFILL_TRIGGER,
    {
        self.ring.len() < REFILL_TRIGGER
    }

    /// The buffered bytes as one contiguous slice, for the decode primitive
    /// to scan.
    pub fn contents(&self) -> (bytes: &[u8])
        requires
            self.wf(),
        ensures
            bytes@ == self.buffered(),
    {
        self.ring.as_contiguous_slice()
    }

    /// Absorb the bytes one refill read staged: append them behind the
    /// buffered tail. Fails with [`Error::AllocationFailure`], leaving the
    /// buffer untouched, exactly if the content would outgrow the fixed
    /// capacity — which the refill policy rules out, since a read is only
    /// issued below the trigger and stages at most one scratch buffer.
    pub fn append_bytes(&mut self, chunk: &[u8]) -> (result: Result<(), Error>)
        requires
            old(self).wf(),
        ensures
            final(self).wf(),
            old(self).buffered().len() + chunk@.len() <= crate::BUFFER_SIZE ==> {
                &&& result == Ok::<(), Error>(())
                &&& final(self).buffered() == old(self).buffered() + chunk@
            },
            old(self).buffered().len() + chunk@.len() > crate::BUFFER_SIZE ==> {
                &&& result == Err::<(), Error>(Error::AllocationFailure)
                &&& final(self).buffered() == old(self).buffered()
            },
    {
        self.ring.append(chunk)
    }

    /// Account for one invocation of the decode primitive: advance the ring
    /// buffer front by exactly the bytes the primitive consumed, and classify
    /// the iteration.
    ///
    /// `bytes_read` is what this iteration's refill read returned, `None` if
    /// occupancy was high enough that no read was issued. The buffered bytes
    /// shrink by exactly `report.bytes_consumed`, never more — on garbage as
    /// on success — which is what prevents permanent desynchronization on
    /// corrupt input.
    pub fn apply_decode(&mut self, report: &DecodeReport, bytes_read: Option<usize>) -> (outcome:
        StepOutcome)
        requires
            old(self).wf(),
            report.bytes_consumed <= old(self).buffered().len(),
        ensures
            final(self).wf(),
            final(self).buffered() == old(self).buffered().skip(report.bytes_consumed as int),
            outcome == spec_step_outcome(*report, bytes_read),
    {
        self.ring.truncate_front(report.bytes_consumed);
        proof {
            assert(self.ring@ =~= old(self).buffered().skip(report.bytes_consumed as int));
        }
        match classify_decode(report) {
            Ok(info) => StepOutcome::Success(info),
            Err(_) => {
                if let Some(n) = bytes_read {
                    if n == 0 {
                        return StepOutcome::Eof;
                    }
                }
                StepOutcome::Retry
            },
        }
    }
}

/// One drive-loop iteration as the I/O shell observes it: what the optional
/// refill read returned (`None` when occupancy was above the trigger and no
/// read was issued), and what the decode primitive then reported.
pub struct SessionStep {
    /// Bytes the iteration's refill read returned, if one was issued.
    pub bytes_read: Option<usize>,
    /// The decode primitive's report for this iteration.
    pub report: DecodeReport,
}

/// What a whole "produce next frame" session returns, given the iterations
/// it would observe: the first outcome that is not a retry, or `None` if
/// every listed iteration retries.
pub open spec fn spec_session_result(steps: Seq<SessionStep>) -> Option<StepOutcome>
    decreases steps.len(),
{
    if steps.len() == 0 {
        None
    } else {
        let outcome = spec_step_outcome(steps[0].report, steps[0].bytes_read);
        if outcome is Retry {
            spec_session_result(steps.skip(1))
        } else {
            Some(outcome)
        }
    }
}

/// The buffer sizing invariant: a refill read is only issued while occupancy
/// is below [`REFILL_TRIGGER`], and stages at most [`crate::REFILL_CHUNK`]
/// bytes, so the ring buffer's fixed capacity always has room for the whole
/// batch — under the refill policy an append can never fail.
pub proof fn lemma_refill_batch_always_fits(core: DecoderCore, chunk_len: int)
    requires
        core.buffered().len() < REFILL_TRIGGER,
        0 <= chunk_len <= crate::REFILL_CHUNK,
    ensures
        core.buffered().len() + chunk_len <= crate::BUFFER_SIZE,
{
}

/// Garbage never costs a later valid frame. As long as no refill read has
/// reported an exhausted source, iterations whose decode produced no samples
/// — skipped garbage as much as insufficient data — only retry, and the
/// first iteration whose decode produced samples ends the session with
/// exactly that frame's metadata.
pub proof fn lemma_valid_frames_survive_garbage(steps: Seq<SessionStep>, k: int)
    requires
        0 <= k < steps.len(),
        forall|i: int| 0 <= i < k ==> (#[trigger] steps[i]).report.samples == 0,
        forall|i: int| 0 <= i < k ==> (#[trigger] steps[i]).bytes_read != Some(0usize),
        steps[k].report.samples > 0,
    ensures
        spec_session_result(steps) == Some(StepOutcome::Success(steps[k].report.info)),
    decreases k,
{
    if k > 0 {
        assert(steps.skip(1)[k - 1] == steps[k]);
        assert forall|i: int| 0 <= i < k - 1 implies (#[trigger] steps.skip(1)[i]).report.samples
            == 0 && steps.skip(1)[i].bytes_read != Some(0usize) by {
            assert(steps.skip(1)[i] == steps[i + 1]);
        }
        lemma_valid_frames_survive_garbage(steps.skip(1), k - 1);
    }
}

/// A session never iterates past a read that observed an exhausted source:
/// the iteration in which a refill read returns zero bytes is the last one —
/// it ends the session with a frame or with end-of-stream, so a source that
/// only ever reports exhaustion cannot make the loop spin forever, and no
/// further reads are ever issued.
pub proof fn lemma_zero_read_concludes(steps: Seq<SessionStep>, k: int)
    requires
        0 <= k < steps.len(),
        steps[k].bytes_read == Some(0usize),
    ensures
        spec_session_result(steps.take(k + 1)) is Some,
        spec_session_result(steps) == spec_session_result(steps.take(k + 1)),
    decreases k,
{
    if k == 0 {
        assert(steps.take(1)[0] == steps[0]);
    } else {
        assert(steps.take(k + 1)[0] == steps[0]);
        assert(steps.skip(1)[k - 1] == steps[k]);
        lemma_zero_read_concludes(steps.skip(1), k - 1);
        assert(steps.skip(1).take(k) =~= steps.take(k + 1).skip(1));
    }
}

/// An empty input ends at once: when the very first iteration's read returns
/// zero bytes and its decode finds no frame in whatever was buffered, the
/// session's first call reports end-of-stream directly.
pub proof fn lemma_empty_input_first_call_eof(steps: Seq<SessionStep>)
    requires
        steps.len() > 0,
        steps[0].bytes_read == Some(0usize),
        steps[0].report.samples == 0,
    ensures
        spec_session_result(steps) == Some(StepOutcome::Eof),
{
}

} // verus!
