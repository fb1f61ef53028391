//! The frame-synchronized engine: input is held back until a sync-flush
//! marker closes a frame, and the frame is then decompressed as a whole.

use vstd::prelude::*;
use crate::context::{Context, Trail};
use crate::policy::Verdict;
use crate::pump::{fed, feed};
use crate::reply::{FrameReply, pack};

verus! {

/// The sync-flush marker: the four bytes `00 00 FF FF` that a DEFLATE encoder
/// writes when it flushes without ending the stream.
pub open spec fn flush_marker() -> Seq<u8> {
    seq![0u8, 0u8, 255u8, 255u8]
}

/// Whether `bytes` is a complete frame: whether its last four bytes are the
/// sync-flush marker.
pub open spec fn closes_frame(bytes: Seq<u8>) -> bool {
    &&& bytes.len() >= 4
    &&& bytes.subrange(bytes.len() - 4, bytes.len() as int) == flush_marker()
}

/// Tells whether the last four bytes of `bytes` are the sync-flush marker.
pub fn ends_with_marker(bytes: &[u8]) -> (found: bool)
    ensures
        found == closes_frame(bytes@),
{
    let len = bytes.len();
    if len < 4 {
        return false;
    }
    let found = bytes[len - 4] == 0 && bytes[len - 3] == 0 && bytes[len - 2] == 255 && bytes[len
        - 1] == 255;
    proof {
        let tail = bytes@.subrange(len - 4, len as int);
        assert(tail[0] == bytes@[len - 4]);
        assert(tail[1] == bytes@[len - 3]);
        assert(tail[2] == bytes@[len - 2]);
        assert(tail[3] == bytes@[len - 1]);
        if found {
            assert(tail =~= flush_marker());
        }
    }
    found
}

/// A decompressor for a zlib stream that arrives in sync-flushed frames.
///
/// Input gathers in a buffer. A push that leaves the buffer ending in the
/// sync-flush marker empties it and decompresses all of it; any other push
/// only adds to it. Like the incremental engine, it is either active or
/// finished, and once finished it stays so.
pub struct ZlibDecompressor {
    chunk_size: u32,
    context: Context,
    buffer: Vec<u8>,
    finished: bool,
}

/// The state of a [`ZlibDecompressor`].
pub ghost struct ZlibDecompressorView {
    /// What the context has been through.
    pub trail: Trail,
    /// The bytes that were pushed and belong to no complete frame yet.
    pub pending: Seq<u8>,
    /// The length of the scratch buffer that frames are decompressed through.
    pub chunk_size: nat,
    /// Whether the engine has reached its terminal state.
    pub finished: bool,
}

impl View for ZlibDecompressor {
    type V = ZlibDecompressorView;

    closed spec fn view(&self) -> ZlibDecompressorView {
        ZlibDecompressorView {
            trail: self.context@,
            pending: self.buffer@,
            chunk_size: self.chunk_size as nat,
            finished: self.finished,
        }
    }
}

/// The envelope of a push that decompressed nothing.
pub open spec fn nothing_yet() -> FrameReply {
    FrameReply::Success { data: None }
}

/// The verdict that an envelope reports, for an engine that is `finished`
/// or not after the push.
pub open spec fn frame_verdict(reply: FrameReply, finished: bool) -> Verdict {
    match reply {
        FrameReply::Success { .. } => Verdict::Stop { finished },
        FrameReply::Failure { error } => Verdict::Fail { error },
    }
}

/// What [`ZlibDecompressor::push`] does with `data`.
///
/// A finished engine stays as it is and answers with an empty success. An
/// active one adds `data` to what is pending. Where the whole does not end in
/// the sync-flush marker, that is all it does, and it answers with an empty
/// success. Where it does, the whole is the frame: nothing is pending
/// afterwards, the frame is fed to the context through a scratch buffer of
/// the engine's chunk size, and the reply reports the verdict that the loop
/// came to. A success carries exactly what the decoder produced meanwhile; a
/// failure carries none of it. The engine is finished afterwards where the
/// stream ended inside the frame or the failure is for good.
pub open spec fn framed(
    before: ZlibDecompressorView,
    data: Seq<u8>,
    after: ZlibDecompressorView,
    reply: FrameReply,
) -> bool {
    let frame = before.pending + data;
    if before.finished {
        &&& after == before
        &&& reply == nothing_yet()
    } else if !closes_frame(frame) {
        &&& after == (ZlibDecompressorView { pending: frame, ..before })
        &&& reply == nothing_yet()
    } else {
        &&& after.chunk_size == before.chunk_size
        &&& after.pending == Seq::<u8>::empty()
        &&& fed(
            before.trail,
            after.trail,
            frame,
            before.chunk_size,
            frame_verdict(reply, after.finished),
        )
        &&& reply matches FrameReply::Failure { error } ==> after.finished == error.is_terminal()
        &&& reply.wf()
        &&& reply is Success ==> after.trail.produced == before.trail.produced + reply.bytes()
    }
}

impl ZlibDecompressor {
    /// The invariant of the engine: that of its context, and a scratch size
    /// above zero.
    pub open spec fn wf(&self) -> bool {
        &&& self@.trail.counted()
        &&& self@.chunk_size > 0
    }

    /// An active engine with nothing pending, whose decoder has seen nothing
    /// yet. Frames will be decompressed through a scratch buffer of
    /// `chunk_size` bytes.
    pub fn new(chunk_size: u32) -> (engine: ZlibDecompressor)
        requires
            chunk_size > 0,
        ensures
            engine.wf(),
            engine@ == (ZlibDecompressorView {
                trail: Trail::fresh(),
                pending: Seq::empty(),
                chunk_size: chunk_size as nat,
                finished: false,
            }),
    {
        ZlibDecompressor {
            chunk_size,
            context: Context::create(),
            buffer: Vec::new(),
            finished: false,
        }
    }

    /// Whether the engine has reached its terminal state.
    pub fn finished(&self) -> (finished: bool)
        ensures
            finished == self@.finished,
    {
        self.finished
    }

    /// Takes in `data`, the next bytes of the stream, and decompresses the
    /// frame they complete, if they complete one.
    ///
    /// - A success that leaves the engine active means the decoder took the
    ///   whole frame.
    /// - A success that leaves it finished means the stream ended inside the
    ///   frame; what lay behind its end was not fed and is gone.
    /// - A failure drops what the call had produced, and the frame. It
    ///   finishes the engine, unless it is a capacity failure.
    pub fn push(&mut self, data: &[u8]) -> (reply: FrameReply)
        requires
            old(self).wf(),
        ensures
            final(self).wf(),
            framed(old(self)@, data@, final(self)@, reply),
    {
        if self.finished {
            return FrameReply::Success { data: None };
        }
        self.buffer.extend_from_slice(data);
        assert(self.buffer@ =~= old(self).buffer@ + data@);
        if !ends_with_marker(self.buffer.as_slice()) {
            return FrameReply::Success { data: None };
        }
        let mut frame: Vec<u8> = Vec::new();
        std::mem::swap(&mut self.buffer, &mut frame);
        let run = feed(&mut self.context, frame.as_slice(), self.chunk_size as usize);
        match run.verdict {
            Verdict::Stop { finished } => {
                self.finished = finished;
                FrameReply::Success { data: pack(run.output) }
            },
            Verdict::Fail { error } => {
                self.finished = error.terminal();
                FrameReply::Failure { error }
            },
            Verdict::Continue => unreached(),
        }
    }
}

} // verus!
