//! The failures an engine can report, and the words it reports them in.

use vstd::prelude::*;
use crate::context::{ErrorCode, Overflow};

verus! {

/// Why an operation of an engine failed.
#[derive(Clone, Copy, Debug, PartialEq, Eq, Structural)]
pub enum EngineError {
    /// The input is beyond the decoder's range: longer than it addresses in
    /// one step, or than it can still count.
    InputTooLarge,
    /// The scratch buffer is beyond the decoder's range: longer than it
    /// addresses in one step, or than it can still count.
    OutputTooLarge,
    /// The decoder refused the stream while input was being pushed.
    PushFailed(ErrorCode),
    /// The decoder refused the stream while it was being finished.
    FinishFailed(ErrorCode),
    /// The decoder could not finish and gave no output: the scratch buffer
    /// will never be enough for it.
    BufferTooSmall,
    /// The decoder is stuck. Either it reported a full buffer and gave no
    /// output, though input was left (or the scratch buffer has no room at
    /// all); or it reported progress and moved no byte at all.
    Stalled,
}

impl EngineError {
    /// Whether this failure leaves the engine finished for good. Only the two
    /// capacity failures do not: they say nothing against the stream.
    pub open spec fn is_terminal(self) -> bool {
        !(self is InputTooLarge) && !(self is OutputTooLarge)
    }

    /// The text of this failure.
    pub open spec fn text(self) -> Seq<char> {
        match self {
            EngineError::InputTooLarge => "Input chunk too large"@,
            EngineError::OutputTooLarge => "Output chunk size too large"@,
            EngineError::PushFailed(ErrorCode::NeedDict) => "Inflate error: NeedDict"@,
            EngineError::PushFailed(ErrorCode::StreamError) => "Inflate error: StreamError"@,
            EngineError::PushFailed(ErrorCode::DataError) => "Inflate error: DataError"@,
            EngineError::PushFailed(ErrorCode::MemError) => "Inflate error: MemError"@,
            EngineError::FinishFailed(ErrorCode::NeedDict) => "Inflate finish error: NeedDict"@,
            EngineError::FinishFailed(ErrorCode::StreamError) => "Inflate finish error: StreamError"@,
            EngineError::FinishFailed(ErrorCode::DataError) => "Inflate finish error: DataError"@,
            EngineError::FinishFailed(ErrorCode::MemError) => "Inflate finish error: MemError"@,
            EngineError::BufferTooSmall => "Output buffer too small to finish inflation"@,
            EngineError::Stalled => "Inflate made no progress"@,
        }
    }

    /// Whether this failure leaves the engine finished for good.
    pub fn terminal(&self) -> (terminal: bool)
        ensures
            terminal == self.is_terminal(),
    {
        match self {
            EngineError::InputTooLarge => false,
            EngineError::OutputTooLarge => false,
            _ => true,
        }
    }

    /// The human-readable description that goes into a failure envelope.
    pub fn message(&self) -> (message: String)
        ensures
            message@ == self.text(),
    {
        let text: &str = match self {
            EngineError::InputTooLarge => "Input chunk too large",
            EngineError::OutputTooLarge => "Output chunk size too large",
            EngineError::PushFailed(ErrorCode::NeedDict) => "Inflate error: NeedDict",
            EngineError::PushFailed(ErrorCode::StreamError) => "Inflate error: StreamError",
            EngineError::PushFailed(ErrorCode::DataError) => "Inflate error: DataError",
            EngineError::PushFailed(ErrorCode::MemError) => "Inflate error: MemError",
            EngineError::FinishFailed(ErrorCode::NeedDict) => "Inflate finish error: NeedDict",
            EngineError::FinishFailed(ErrorCode::StreamError) => "Inflate finish error: StreamError",
            EngineError::FinishFailed(ErrorCode::DataError) => "Inflate finish error: DataError",
            EngineError::FinishFailed(ErrorCode::MemError) => "Inflate finish error: MemError",
            EngineError::BufferTooSmall => "Output buffer too small to finish inflation",
            EngineError::Stalled => "Inflate made no progress",
        };
        text.to_owned()
    }

    /// The capacity failure that stands for an overflowing counter.
    pub open spec fn of_overflow(overflow: Overflow) -> EngineError {
        match overflow {
            Overflow::Input => EngineError::InputTooLarge,
            Overflow::Output => EngineError::OutputTooLarge,
        }
    }

    /// The capacity failure that stands for an overflowing counter.
    pub fn from_overflow(overflow: Overflow) -> (error: EngineError)
        ensures
            error == Self::of_overflow(overflow),
    {
        match overflow {
            Overflow::Input => EngineError::InputTooLarge,
            Overflow::Output => EngineError::OutputTooLarge,
        }
    }
}

} // verus!
