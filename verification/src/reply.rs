//! The result envelopes that the engines hand back. Every operation returns
//! one: a success, which may carry output, or a failure, which carries its
//! reason and nothing else.

use vstd::prelude::*;
use crate::error::EngineError;
use crate::policy::Verdict;

verus! {

/// The bytes an envelope carries: those of its `data`, or none.
pub open spec fn payload(data: Option<Vec<u8>>) -> Seq<u8> {
    match data {
        Some(bytes) => bytes@,
        None => Seq::<u8>::empty(),
    }
}

/// The `data` of an envelope that is to carry `output`: present only where
/// there is at least one byte.
pub open spec fn packed(output: Vec<u8>) -> Option<Vec<u8>> {
    if output@.len() > 0 {
        Some(output)
    } else {
        None
    }
}

/// Turns what a loop gathered into the `data` of an envelope.
pub fn pack(output: Vec<u8>) -> (data: Option<Vec<u8>>)
    ensures
        data == packed(output),
        payload(data) == output@,
{
    if output.len() > 0 {
        Some(output)
    } else {
        assert(output@ =~= Seq::<u8>::empty());
        None
    }
}

/// What the incremental engine returns.
#[derive(Debug)]
pub enum StreamReply {
    /// The operation went through. `data` is what it produced, absent where it
    /// produced nothing; `finished` says whether the stream has ended.
    Success { data: Option<Vec<u8>>, finished: bool },
    /// The operation failed. Whatever it had produced is dropped.
    Failure { error: EngineError },
}

/// What the frame-synchronized engine returns.
#[derive(Debug)]
pub enum FrameReply {
    /// The operation went through. `data` is what the frame decompressed to,
    /// absent where no frame was complete or the frame gave nothing.
    Success { data: Option<Vec<u8>> },
    /// The operation failed. Whatever it had produced is dropped.
    Failure { error: EngineError },
}

/// Whether a loop that came to `verdict` leaves its engine finished: where the
/// stream ended, and where the loop failed for good.
pub open spec fn latches(verdict: Verdict) -> bool {
    match verdict {
        Verdict::Continue => false,
        Verdict::Stop { finished } => finished,
        Verdict::Fail { error } => error.is_terminal(),
    }
}

impl StreamReply {
    /// The verdict that this envelope reports.
    pub open spec fn verdict(self) -> Verdict {
        match self {
            StreamReply::Success { finished, .. } => Verdict::Stop { finished },
            StreamReply::Failure { error } => Verdict::Fail { error },
        }
    }

    /// The bytes this envelope carries.
    pub open spec fn bytes(self) -> Seq<u8> {
        match self {
            StreamReply::Success { data, .. } => payload(data),
            StreamReply::Failure { .. } => Seq::<u8>::empty(),
        }
    }

    /// `data` is present only if it is not empty.
    pub open spec fn wf(self) -> bool {
        self matches StreamReply::Success { data: Some(bytes), .. } ==> bytes@.len() > 0
    }

    /// The envelope's `ok` field.
    pub fn ok(&self) -> (ok: bool)
        ensures
            ok == (self is Success),
    {
        match self {
            StreamReply::Success { .. } => true,
            StreamReply::Failure { .. } => false,
        }
    }
}

impl FrameReply {
    /// The bytes this envelope carries.
    pub open spec fn bytes(self) -> Seq<u8> {
        match self {
            FrameReply::Success { data } => payload(data),
            FrameReply::Failure { .. } => Seq::<u8>::empty(),
        }
    }

    /// `data` is present only if it is not empty.
    pub open spec fn wf(self) -> bool {
        self matches FrameReply::Success { data: Some(bytes) } ==> bytes@.len() > 0
    }

    /// The envelope's `ok` field.
    pub fn ok(&self) -> (ok: bool)
        ensures
            ok == (self is Success),
    {
        match self {
            FrameReply::Success { .. } => true,
            FrameReply::Failure { .. } => false,
        }
    }
}

} // verus!
