//! What holds of the engines over any course of calls, stated over the
//! relations that their operations establish.

use vstd::prelude::*;
use crate::context::{FlushMode, Trail, within_range};
use crate::decompressor::{DecompressorView, already_finished, finished_off, pushed};
use crate::error::EngineError;
use crate::policy::Verdict;
use crate::pump::{fed, left_over, new_turns, ran, sound};
use crate::reply::{FrameReply, StreamReply};
use crate::zlib::{ZlibDecompressorView, closes_frame, frame_verdict, framed, nothing_yet};

verus! {

/// A loop never ends on the verdict to go on.
pub proof fn lemma_run_comes_to_an_end(
    before: Trail,
    after: Trail,
    offered: nat,
    capacity: nat,
    mode: FlushMode,
    verdict: Verdict,
)
    requires
        ran(before, after, offered, capacity, mode, verdict),
    ensures
        !(verdict is Continue),
{
}

/// The terminal state is absorbing: on a finished incremental engine, `push`
/// and `finish` answer with an empty success and change nothing.
pub proof fn lemma_finished_stream_engine_is_inert(
    before: DecompressorView,
    data: Seq<u8>,
    after: DecompressorView,
    reply: StreamReply,
)
    requires
        before.finished,
        pushed(before, data, after, reply) || finished_off(before, after, reply),
    ensures
        after == before,
        reply == already_finished(),
        reply.bytes() == Seq::<u8>::empty(),
{
}

/// The terminal state is absorbing: on a finished frame engine, `push`
/// answers with an empty success and changes nothing.
pub proof fn lemma_finished_frame_engine_is_inert(
    before: ZlibDecompressorView,
    data: Seq<u8>,
    after: ZlibDecompressorView,
    reply: FrameReply,
)
    requires
        before.finished,
        framed(before, data, after, reply),
    ensures
        after == before,
        reply == nothing_yet(),
        reply.bytes() == Seq::<u8>::empty(),
{
}

/// An active incremental engine becomes finished exactly where its reply
/// says that the stream has ended or reports a failure that is for good.
pub proof fn lemma_stream_engine_finishes_on_verdict(
    before: DecompressorView,
    data: Seq<u8>,
    after: DecompressorView,
    reply: StreamReply,
)
    requires
        !before.finished,
        pushed(before, data, after, reply) || finished_off(before, after, reply),
    ensures
        after.finished == match reply {
            StreamReply::Success { finished, .. } => finished,
            StreamReply::Failure { error } => error.is_terminal(),
        },
        finished_off(before, after, reply) && reply is Success ==> after.finished,
{
}

/// Pushing nothing into an active incremental engine does nothing: no step is
/// made, and the reply is an empty success that is not finished.
pub proof fn lemma_empty_push_is_idle(
    before: DecompressorView,
    after: DecompressorView,
    reply: StreamReply,
)
    requires
        !before.finished,
        pushed(before, Seq::<u8>::empty(), after, reply),
    ensures
        after == before,
        reply == (StreamReply::Success { data: None, finished: false }),
{
    let turns = new_turns(before.trail, after.trail);
    assert(turns.len() == 0);
    assert(after.trail.turns =~= before.trail.turns);
    assert(Seq::<u8>::empty().take(0) =~= Seq::<u8>::empty());
    assert(after.trail.consumed =~= before.trail.consumed);
    assert(after.trail.produced =~= before.trail.produced + reply.bytes());
    assert(reply.bytes().len() == 0);
    assert(after.trail.produced =~= before.trail.produced);
    assert(after.trail =~= before.trail);
}

/// A push that succeeds without finishing the stream has fed the decoder all
/// of its data.
pub proof fn lemma_unfinished_push_takes_all(
    before: DecompressorView,
    data: Seq<u8>,
    after: DecompressorView,
    reply: StreamReply,
)
    requires
        !before.finished,
        pushed(before, data, after, reply),
        reply is Success,
        !after.finished,
    ensures
        after.trail.consumed == before.trail.consumed + data,
        after.trail.produced == before.trail.produced + reply.bytes(),
{
    let turns = new_turns(before.trail, after.trail);
    assert(left_over(turns, data.len()) == 0);
    assert(data.take(data.len() as int) =~= data);
}

/// Cutting the input into two pushes changes nothing for the decoder: where
/// the first push succeeds without finishing the stream, the decoder has been
/// fed, after the second, the first bytes of the two inputs joined, as far as
/// the second push got, and the two replies together carry what it produced.
pub proof fn lemma_pushes_join(
    start: DecompressorView,
    first: Seq<u8>,
    between: DecompressorView,
    first_reply: StreamReply,
    second: Seq<u8>,
    end: DecompressorView,
    second_reply: StreamReply,
)
    requires
        !start.finished,
        pushed(start, first, between, first_reply),
        pushed(between, second, end, second_reply),
        first_reply is Success,
        !between.finished,
    ensures
        ({
            let rest = left_over(new_turns(between.trail, end.trail), second.len());
            &&& rest <= second.len()
            &&& end.trail.consumed == start.trail.consumed + (first + second).take(
                first.len() + second.len() - rest,
            )
        }),
        second_reply is Success ==> end.trail.produced == start.trail.produced
            + first_reply.bytes() + second_reply.bytes(),
        second_reply is Success && !end.finished ==> end.trail.consumed == start.trail.consumed
            + (first + second),
{
    lemma_unfinished_push_takes_all(start, first, between, first_reply);
    let rest = left_over(new_turns(between.trail, end.trail), second.len());
    let taken = second.len() - rest;
    assert((first + second).take(first.len() + taken) =~= first + second.take(taken));
    assert(end.trail.consumed =~= start.trail.consumed + (first + second).take(
        first.len() + taken,
    ));
    if second_reply is Success {
        assert(end.trail.produced =~= start.trail.produced + first_reply.bytes()
            + second_reply.bytes());
        if !end.finished {
            lemma_unfinished_push_takes_all(between, second, end, second_reply);
            assert(end.trail.consumed =~= start.trail.consumed + (first + second));
        }
    }
}

/// After pushes that took everything, `finish` adds the rest: the replies of
/// a push and of the finish that follows it carry, together, all that the
/// decoder produced in the two, and the decoder is fed nothing further.
pub proof fn lemma_finish_completes_push(
    start: DecompressorView,
    data: Seq<u8>,
    between: DecompressorView,
    push_reply: StreamReply,
    end: DecompressorView,
    finish_reply: StreamReply,
)
    requires
        !start.finished,
        pushed(start, data, between, push_reply),
        finished_off(between, end, finish_reply),
        push_reply is Success,
        finish_reply is Success,
    ensures
        end.finished,
        end.trail.consumed == between.trail.consumed,
        end.trail.produced == start.trail.produced + push_reply.bytes() + finish_reply.bytes(),
{
    if between.finished {
        assert(finish_reply.bytes() =~= Seq::<u8>::empty());
        assert(end.trail.produced =~= start.trail.produced + push_reply.bytes()
            + finish_reply.bytes());
    } else {
        assert(end.trail.produced =~= start.trail.produced + push_reply.bytes()
            + finish_reply.bytes());
    }
}

/// With this decoder `finish` succeeds only at the end of the stream: the
/// last step of a finish that succeeds reported the stream's end.
pub proof fn lemma_finish_succeeds_only_at_stream_end(
    before: DecompressorView,
    after: DecompressorView,
    reply: StreamReply,
)
    requires
        !before.finished,
        finished_off(before, after, reply),
        reply is Success,
    ensures
        new_turns(before.trail, after.trail).len() > 0,
        new_turns(before.trail, after.trail).last().outcome.status is StreamEnd,
        after.finished,
{
    let turns = new_turns(before.trail, after.trail);
    assert(turns.len() > 0);
    assert(sound(turns[turns.len() - 1]));
}

/// With this decoder a push fails as stalled only on a report of a full
/// buffer: the decoder says that it cannot go on, gives nothing, and there is
/// input left or the scratch buffer is full.
pub proof fn lemma_stalled_push_saw_full_buffer(
    before: DecompressorView,
    data: Seq<u8>,
    after: DecompressorView,
    reply: StreamReply,
)
    requires
        !before.finished,
        pushed(before, data, after, reply),
        reply == (StreamReply::Failure { error: EngineError::Stalled }),
    ensures
        new_turns(before.trail, after.trail).len() > 0,
        new_turns(before.trail, after.trail).last().outcome.status is BufferFull,
        new_turns(before.trail, after.trail).last().outcome.produced == 0,
{
    let turns = new_turns(before.trail, after.trail);
    assert(turns.len() > 0);
    assert(sound(turns[turns.len() - 1]));
}

/// An input beyond the decoder's range is refused and changes nothing: a push
/// of more bytes than the decoder addresses in one step, or than it can still
/// count, into an active engine fails as too large, and the engine stays
/// active and as it was.
pub proof fn lemma_oversized_push_is_refused(
    before: DecompressorView,
    data: Seq<u8>,
    after: DecompressorView,
    reply: StreamReply,
)
    requires
        before.trail.counted(),
        !before.finished,
        pushed(before, data, after, reply),
    ensures
        reply == (StreamReply::Failure { error: EngineError::InputTooLarge }) <==> !within_range(
            before.trail.consumed.len(),
            data.len(),
        ),
        !within_range(before.trail.consumed.len(), data.len()) ==> after == before,
{
    let turns = new_turns(before.trail, after.trail);
    let rest = left_over(turns, data.len());
    assert(after.trail.consumed.len() + rest == before.trail.consumed.len() + data.len()) by {
        assert(data.take(data.len() - rest).len() == data.len() - rest);
    }
    if !within_range(before.trail.consumed.len(), data.len()) {
        assert(turns.len() == 0);
        assert(data.take(0) =~= Seq::<u8>::empty());
        assert(after.trail.turns =~= before.trail.turns);
        assert(after.trail.consumed =~= before.trail.consumed);
        assert(after.trail.produced =~= before.trail.produced);
        assert(after.trail =~= before.trail);
    }
}

/// A frame beyond the decoder's range is refused: the engine fails as too
/// large, stays active, drops the frame, and leaves the decoder alone.
pub proof fn lemma_oversized_frame_is_refused(
    before: ZlibDecompressorView,
    data: Seq<u8>,
    after: ZlibDecompressorView,
    reply: FrameReply,
)
    requires
        before.trail.counted(),
        !before.finished,
        framed(before, data, after, reply),
        closes_frame(before.pending + data),
    ensures
        reply == (FrameReply::Failure { error: EngineError::InputTooLarge }) <==> !within_range(
            before.trail.consumed.len(),
            (before.pending + data).len(),
        ),
        !within_range(before.trail.consumed.len(), (before.pending + data).len()) ==> {
            &&& after.trail == before.trail
            &&& after.pending == Seq::<u8>::empty()
            &&& !after.finished
        },
{
    let frame = before.pending + data;
    let turns = new_turns(before.trail, after.trail);
    let rest = left_over(turns, frame.len());
    assert(after.trail.consumed.len() + rest == before.trail.consumed.len() + frame.len()) by {
        assert(frame.take(frame.len() - rest).len() == frame.len() - rest);
    }
    if !within_range(before.trail.consumed.len(), frame.len()) {
        assert(turns.len() == 0);
        assert(frame.take(0) =~= Seq::<u8>::empty());
        assert(after.trail.turns =~= before.trail.turns);
        assert(after.trail.consumed =~= before.trail.consumed);
        assert(after.trail.produced =~= before.trail.produced);
        assert(after.trail =~= before.trail);
    }
}

/// Frame gating: on an active frame engine, bytes that do not bring the
/// pending input to end in the sync-flush marker are only held back, and the
/// decoder is left alone; bytes that do, have the whole of the pending input
/// fed to the decoder in that one call, and nothing is pending afterwards.
pub proof fn lemma_frame_gate(
    before: ZlibDecompressorView,
    data: Seq<u8>,
    after: ZlibDecompressorView,
    reply: FrameReply,
)
    requires
        !before.finished,
        framed(before, data, after, reply),
    ensures
        !closes_frame(before.pending + data) ==> {
            &&& reply == nothing_yet()
            &&& after.pending == before.pending + data
            &&& after.trail == before.trail
            &&& !after.finished
        },
        closes_frame(before.pending + data) ==> {
            &&& after.pending == Seq::<u8>::empty()
            &&& fed(
                before.trail,
                after.trail,
                before.pending + data,
                before.chunk_size,
                frame_verdict(reply, after.finished),
            )
        },
        closes_frame(before.pending + data) && reply is Success && !after.finished ==> {
            &&& after.trail.consumed == before.trail.consumed + (before.pending + data)
            &&& after.trail.produced == before.trail.produced + reply.bytes()
        },
{
    let frame = before.pending + data;
    if closes_frame(frame) && reply is Success && !after.finished {
        let turns = new_turns(before.trail, after.trail);
        assert(left_over(turns, frame.len()) == 0);
        assert(frame.take(frame.len() as int) =~= frame);
    }
}

/// A frame that arrives in two pushes is decompressed as one: where the first
/// push does not complete it and the second does, the first gives nothing,
/// and the second feeds the decoder all that was pending before the first,
/// then the first push's bytes, then its own.
pub proof fn lemma_frame_in_two_pushes(
    start: ZlibDecompressorView,
    first: Seq<u8>,
    between: ZlibDecompressorView,
    first_reply: FrameReply,
    second: Seq<u8>,
    end: ZlibDecompressorView,
    second_reply: FrameReply,
)
    requires
        !start.finished,
        framed(start, first, between, first_reply),
        framed(between, second, end, second_reply),
        !closes_frame(start.pending + first),
        closes_frame(start.pending + first + second),
    ensures
        first_reply == nothing_yet(),
        end.pending == Seq::<u8>::empty(),
        fed(
            start.trail,
            end.trail,
            start.pending + first + second,
            start.chunk_size,
            frame_verdict(second_reply, end.finished),
        ),
{
}

/// A stream that the decoder refuses finishes the engine: where the last step
/// of a push ended in an error of the decoder, the reply is a failure, and
/// the engine is finished.
pub proof fn lemma_refused_stream_finishes_engine(
    before: DecompressorView,
    data: Seq<u8>,
    after: DecompressorView,
    reply: StreamReply,
)
    requires
        !before.finished,
        pushed(before, data, after, reply),
        new_turns(before.trail, after.trail).len() > 0,
        new_turns(before.trail, after.trail).last().outcome.status is Error,
    ensures
        reply is Failure,
        after.finished,
{
}

/// A frame that the decoder refuses finishes the engine: where the last step
/// on a frame ended in an error of the decoder, the reply is a failure, and
/// the engine is finished.
pub proof fn lemma_refused_frame_finishes_engine(
    before: ZlibDecompressorView,
    data: Seq<u8>,
    after: ZlibDecompressorView,
    reply: FrameReply,
)
    requires
        !before.finished,
        framed(before, data, after, reply),
        new_turns(before.trail, after.trail).len() > 0,
        new_turns(before.trail, after.trail).last().outcome.status is Error,
    ensures
        reply is Failure,
        after.finished,
{
    let frame = before.pending + data;
    if !closes_frame(frame) {
        assert(after.trail == before.trail);
        assert(new_turns(before.trail, after.trail).len() == 0);
    }
}

} // verus!
