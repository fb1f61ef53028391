//! The incremental engine: output leaves it as soon as the decoder has
//! produced it.

use vstd::prelude::*;
use crate::context::{Context, Trail};
use crate::policy::Verdict;
use crate::pump::{fed, feed, flush, flushed};
use crate::reply::{StreamReply, latches, pack};

verus! {

/// The length of the scratch buffer that the incremental engine decompresses
/// through: 16 KiB.
pub const OUTPUT_CHUNK_SIZE: usize = 16384;

/// An incremental decompressor for one zlib stream.
///
/// It is either active or finished. It becomes finished when the stream ends
/// or when decompression fails for good, and then stays so: every later
/// operation is a success that gives nothing and changes nothing.
pub struct Decompressor {
    context: Context,
    finished: bool,
}

/// The state of a [`Decompressor`]: what its context has been through, and
/// whether it has reached its terminal state.
pub ghost struct DecompressorView {
    pub trail: Trail,
    pub finished: bool,
}

impl View for Decompressor {
    type V = DecompressorView;

    closed spec fn view(&self) -> DecompressorView {
        DecompressorView { trail: self.context@, finished: self.finished }
    }
}

/// The envelope of an operation on a finished engine.
pub open spec fn already_finished() -> StreamReply {
    StreamReply::Success { data: None, finished: true }
}

/// What [`Decompressor::push`] does with `data`.
///
/// A finished engine stays as it is and answers with an empty success.
/// Otherwise `data` is fed to the context through the engine's scratch buffer,
/// and the reply reports the verdict that the loop came to. A success carries
/// exactly what the decoder produced meanwhile; a failure carries none of it.
/// The engine is finished afterwards where the verdict says so.
pub open spec fn pushed(
    before: DecompressorView,
    data: Seq<u8>,
    after: DecompressorView,
    reply: StreamReply,
) -> bool {
    if before.finished {
        &&& after == before
        &&& reply == already_finished()
    } else {
        &&& fed(before.trail, after.trail, data, OUTPUT_CHUNK_SIZE as nat, reply.verdict())
        &&& after.finished == latches(reply.verdict())
        &&& reply.wf()
        &&& reply is Success ==> after.trail.produced == before.trail.produced + reply.bytes()
    }
}

/// What [`Decompressor::finish`] does.
///
/// A finished engine stays as it is and answers with an empty success.
/// Otherwise the context is stepped without input through the engine's
/// scratch buffer until the stream ends, and the reply reports the verdict
/// that the loop came to. A success carries exactly what the decoder produced
/// meanwhile; a failure carries none of it. The engine is finished afterwards
/// where the verdict says so.
pub open spec fn finished_off(before: DecompressorView, after: DecompressorView, reply: StreamReply) -> bool {
    if before.finished {
        &&& after == before
        &&& reply == already_finished()
    } else {
        &&& flushed(before.trail, after.trail, OUTPUT_CHUNK_SIZE as nat, reply.verdict())
        &&& after.finished == latches(reply.verdict())
        &&& reply.wf()
        &&& reply is Success ==> after.trail.produced == before.trail.produced + reply.bytes()
    }
}

impl Decompressor {
    /// The invariant of the engine: that of its context.
    pub open spec fn wf(&self) -> bool {
        self@.trail.counted()
    }

    /// An active engine whose decoder has seen nothing yet.
    pub fn new() -> (engine: Decompressor)
        ensures
            engine.wf(),
            engine@ == (DecompressorView { trail: Trail::fresh(), finished: false }),
    {
        Decompressor { context: Context::create(), finished: false }
    }

    /// Whether the engine has reached its terminal state.
    pub fn finished(&self) -> (finished: bool)
        ensures
            finished == self@.finished,
    {
        self.finished
    }

    /// Decompresses `data`, the next bytes of the stream.
    ///
    /// A finished engine answers with an empty success and stays as it is; so
    /// does an active one for empty `data`, but unfinished. Otherwise the
    /// decoder is fed `data` from its start, in order, and the reply carries
    /// exactly what the decoder produced meanwhile.
    ///
    /// - A success that is not `finished` means the decoder took all of
    ///   `data`.
    /// - A success that is `finished` means the stream ended; whatever of
    ///   `data` lay behind its end was not fed.
    /// - A failure drops what the call had produced. It finishes the engine,
    ///   unless it is a capacity failure.
    pub fn push(&mut self, data: &[u8]) -> (reply: StreamReply)
        requires
            old(self).wf(),
        ensures
            final(self).wf(),
            pushed(old(self)@, data@, final(self)@, reply),
    {
        if self.finished {
            return StreamReply::Success { data: None, finished: true };
        }
        let run = feed(&mut self.context, data, OUTPUT_CHUNK_SIZE);
        match run.verdict {
            Verdict::Stop { finished } => {
                self.finished = finished;
                StreamReply::Success { data: pack(run.output), finished }
            },
            Verdict::Fail { error } => {
                self.finished = error.terminal();
                StreamReply::Failure { error }
            },
            Verdict::Continue => unreached(),
        }
    }

    /// Flushes what the decoder still holds, with no further input, and ends
    /// the stream.
    ///
    /// A finished engine answers with an empty success and stays as it is.
    /// Otherwise the decoder is stepped without input until it reports the end
    /// of the stream, and the reply carries exactly what it produced
    /// meanwhile. A success is always `finished`. A failure drops what the
    /// call had produced; it finishes the engine, unless it is a capacity
    /// failure.
    pub fn finish(&mut self) -> (reply: StreamReply)
        requires
            old(self).wf(),
        ensures
            final(self).wf(),
            finished_off(old(self)@, final(self)@, reply),
    {
        if self.finished {
            return StreamReply::Success { data: None, finished: true };
        }
        let run = flush(&mut self.context, OUTPUT_CHUNK_SIZE);
        match run.verdict {
            Verdict::Stop { finished } => {
                self.finished = finished;
                StreamReply::Success { data: pack(run.output), finished }
            },
            Verdict::Fail { error } => {
                self.finished = error.terminal();
                StreamReply::Failure { error }
            },
            Verdict::Continue => unreached(),
        }
    }
}

} // verus!
