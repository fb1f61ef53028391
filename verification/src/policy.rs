//! The retry policy: what an engine does after each step of the decoder.
//!
//! Both engines feed input through the same loop, and the incremental engine
//! finishes a stream through a second one. Each loop asks this module, after
//! every step, whether to go on, to stop, or to fail.
//!
//! The policy is stated for every outcome that a step can have by its type.
//! The decoder in use has fewer: it reports progress only where it was not
//! asked to finish and a byte has moved. The verdicts on the other outcomes
//! stand for a decoder that would report them.

use vstd::prelude::*;
use crate::context::{StepOutcome, StepStatus};
use crate::error::EngineError;

verus! {

/// What a loop does after a step.
#[derive(Clone, Copy, Debug, PartialEq, Eq, Structural)]
pub enum Verdict {
    /// Step again, with a fresh scratch buffer and the input that is left.
    Continue,
    /// Return what has been produced. `finished` says whether the stream has
    /// ended.
    Stop { finished: bool },
    /// Return a failure.
    Fail { error: EngineError },
}

/// The verdict on a step that was fed input.
///
/// `remaining` is the input that the step left behind, `capacity` the length
/// of the scratch buffer it wrote to.
///
/// - An error of the decoder is a failure.
/// - The end of the stream stops the loop, finished.
/// - Otherwise the loop stops, not finished, once no input is left and the
///   step did not fill the scratch buffer.
/// - Otherwise a full-buffer report with no output is a stuck decoder, and a
///   failure; so is a step that moved nothing at all.
/// - Otherwise the loop goes on.
pub open spec fn push_verdict(outcome: StepOutcome, remaining: nat, capacity: nat) -> Verdict {
    match outcome.status {
        StepStatus::Error(code) => Verdict::Fail { error: EngineError::PushFailed(code) },
        StepStatus::StreamEnd => Verdict::Stop { finished: true },
        StepStatus::Progress => if remaining == 0 && outcome.produced < capacity {
            Verdict::Stop { finished: false }
        } else if outcome.produced == 0 && outcome.consumed == 0 {
            Verdict::Fail { error: EngineError::Stalled }
        } else {
            Verdict::Continue
        },
        StepStatus::BufferFull => if remaining == 0 && outcome.produced < capacity {
            Verdict::Stop { finished: false }
        } else if outcome.produced == 0 {
            Verdict::Fail { error: EngineError::Stalled }
        } else {
            Verdict::Continue
        },
    }
}

/// The verdict on a step that was asked to finish the stream, with no input.
///
/// - The end of the stream stops the loop, finished.
/// - A step that gave output is followed by another.
/// - A step that gave none stops the loop: as finished where the decoder
///   reported progress, as a failure where it reported a full buffer.
/// - An error of the decoder is a failure.
pub open spec fn finish_verdict(outcome: StepOutcome) -> Verdict {
    match outcome.status {
        StepStatus::Error(code) => Verdict::Fail { error: EngineError::FinishFailed(code) },
        StepStatus::StreamEnd => Verdict::Stop { finished: true },
        StepStatus::Progress => if outcome.produced == 0 {
            Verdict::Stop { finished: true }
        } else {
            Verdict::Continue
        },
        StepStatus::BufferFull => if outcome.produced == 0 {
            Verdict::Fail { error: EngineError::BufferTooSmall }
        } else {
            Verdict::Continue
        },
    }
}

/// Decides what follows a step that was fed input.
pub fn judge_push_step(outcome: StepOutcome, remaining: usize, capacity: usize) -> (verdict: Verdict)
    ensures
        verdict == push_verdict(outcome, remaining as nat, capacity as nat),
{
    match outcome.status {
        StepStatus::Error(code) => Verdict::Fail { error: EngineError::PushFailed(code) },
        StepStatus::StreamEnd => Verdict::Stop { finished: true },
        StepStatus::Progress => {
            if remaining == 0 && outcome.produced < capacity {
                Verdict::Stop { finished: false }
            } else if outcome.produced == 0 && outcome.consumed == 0 {
                Verdict::Fail { error: EngineError::Stalled }
            } else {
                Verdict::Continue
            }
        },
        StepStatus::BufferFull => {
            if remaining == 0 && outcome.produced < capacity {
                Verdict::Stop { finished: false }
            } else if outcome.produced == 0 {
                Verdict::Fail { error: EngineError::Stalled }
            } else {
                Verdict::Continue
            }
        },
    }
}

/// Decides what follows a step that was asked to finish the stream.
pub fn judge_finish_step(outcome: StepOutcome) -> (verdict: Verdict)
    ensures
        verdict == finish_verdict(outcome),
{
    match outcome.status {
        StepStatus::Error(code) => Verdict::Fail { error: EngineError::FinishFailed(code) },
        StepStatus::StreamEnd => Verdict::Stop { finished: true },
        StepStatus::Progress => {
            if outcome.produced == 0 {
                Verdict::Stop { finished: true }
            } else {
                Verdict::Continue
            }
        },
        StepStatus::BufferFull => {
            if outcome.produced == 0 {
                Verdict::Fail { error: EngineError::BufferTooSmall }
            } else {
                Verdict::Continue
            }
        },
    }
}

/// A loop only goes on after a step that moved something: every further step
/// finds the decoder's byte counters higher than the one before.
pub proof fn lemma_continue_means_progress(outcome: StepOutcome, remaining: nat, capacity: nat)
    ensures
        push_verdict(outcome, remaining, capacity) is Continue ==> outcome.consumed + outcome.produced
            > 0,
        finish_verdict(outcome) is Continue ==> outcome.produced > 0,
{
}

/// Whatever else a step did, an error of the decoder fails the operation, and
/// every failure that a verdict carries is terminal.
pub proof fn lemma_decoder_errors_are_terminal(outcome: StepOutcome, remaining: nat, capacity: nat)
    ensures
        outcome.status is Error ==> push_verdict(outcome, remaining, capacity) is Fail
            && finish_verdict(outcome) is Fail,
        push_verdict(outcome, remaining, capacity) matches Verdict::Fail { error }
            ==> error.is_terminal(),
        finish_verdict(outcome) matches Verdict::Fail { error } ==> error.is_terminal(),
{
}

/// Pushing stops short of the stream's end exactly when the decoder has taken
/// all the input and left room in the scratch buffer, without ending the
/// stream or refusing it.
pub proof fn lemma_push_stops_when_drained(outcome: StepOutcome, remaining: nat, capacity: nat)
    ensures
        push_verdict(outcome, remaining, capacity) == (Verdict::Stop { finished: false }) <==> (
        remaining == 0 && outcome.produced < capacity && (outcome.status is Progress
            || outcome.status is BufferFull)),
{
}

} // verus!
