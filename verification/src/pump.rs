//! The two loops that drive a context: one feeds it input, one finishes the
//! stream. Each uses a scratch buffer of a fixed size, over and over, and
//! gathers what the decoder writes to it.
//!
//! What a loop did is read off the context's trail: the steps it made are the
//! turns that the trail has gained, and the whole course of the loop is
//! stated over them.

use vstd::prelude::*;
use vstd::slice::slice_subrange;
use crate::context::{Context, FlushMode, Trail, Turn, within_range};
use crate::error::EngineError;
use crate::policy::{Verdict, finish_verdict, judge_finish_step, judge_push_step, push_verdict};

verus! {

/// The verdict of the retry policy on a step.
pub open spec fn turn_verdict(turn: Turn) -> Verdict {
    match turn.mode {
        FlushMode::NoFlush => push_verdict(turn.outcome, turn.remaining(), turn.capacity),
        FlushMode::Finish => finish_verdict(turn.outcome),
    }
}

/// The turns that a trail has gained since it was `before`.
pub open spec fn new_turns(before: Trail, after: Trail) -> Seq<Turn> {
    after.turns.skip(before.turns.len() as int)
}

/// A step as the decoder makes them: it took no more than it was offered,
/// and reported progress only where it was not asked to finish and a byte
/// has moved.
pub open spec fn sound(turn: Turn) -> bool {
    &&& turn.outcome.consumed <= turn.offered
    &&& turn.outcome.produced <= turn.capacity
    &&& turn.outcome.status is Progress ==> turn.mode is NoFlush && turn.outcome.consumed
        + turn.outcome.produced > 0
}

/// The steps of one loop hang together: all were made in `mode`, through a
/// scratch buffer of `capacity` bytes; the first was offered `offered` bytes,
/// and each later one what the one before it left behind.
pub open spec fn chained(turns: Seq<Turn>, offered: nat, capacity: nat, mode: FlushMode) -> bool {
    &&& forall|i: int|
        0 <= i < turns.len() ==> {
            &&& (#[trigger] turns[i]).mode == mode
            &&& turns[i].capacity == capacity
            &&& sound(turns[i])
        }
    &&& turns.len() > 0 ==> turns[0].offered == offered
    &&& forall|i: int, j: int|
        0 <= i && j == i + 1 && j < turns.len() ==> (#[trigger] turns[j]).offered == (
        #[trigger] turns[i]).remaining()
}

/// Every step was followed by another because the policy said so.
pub open spec fn kept_going(turns: Seq<Turn>) -> bool {
    forall|i: int| 0 <= i < turns.len() ==> turn_verdict(#[trigger] turns[i]) is Continue
}

/// No step was made without cause: the first because the loop had input to
/// feed or a stream to finish, each later one because the policy said so
/// after the one before it.
pub open spec fn went_on(turns: Seq<Turn>, offered: nat, mode: FlushMode) -> bool {
    &&& turns.len() > 0 ==> mode is Finish || offered > 0
    &&& forall|i: int| 0 <= i < turns.len() - 1 ==> turn_verdict(#[trigger] turns[i]) is Continue
}

/// The input that is left after the steps of a loop that was offered
/// `offered` bytes.
pub open spec fn left_over(turns: Seq<Turn>, offered: nat) -> nat {
    if turns.len() == 0 {
        offered
    } else {
        turns.last().remaining()
    }
}

/// The number of bytes that the steps produced, all told.
pub open spec fn yield_of(turns: Seq<Turn>) -> nat
    decreases turns.len(),
{
    if turns.len() == 0 {
        0
    } else {
        yield_of(turns.drop_last()) + turns.last().outcome.produced as nat
    }
}

/// Whether a loop that has made these steps is to make another: after a step,
/// where the policy says so; before the first, unless it is to feed input and
/// has none.
pub open spec fn wants_step(turns: Seq<Turn>, offered: nat, mode: FlushMode) -> bool {
    if turns.len() == 0 {
        mode is Finish || offered > 0
    } else {
        turn_verdict(turns.last()) is Continue
    }
}

/// A loop in `mode`, offered `offered` bytes of input and working through a
/// scratch buffer of `capacity` bytes, took a context from `before` to `after`
/// and came to `verdict`.
///
/// - The trail has gained the loop's steps, which hang together, and none of
///   them was made without cause.
/// - No step was made on buffers beyond the decoder's range.
/// - Where the last step did not call for another, its verdict is the loop's.
/// - Where the loop has made no step and was to make none, it stops,
///   unfinished.
/// - Otherwise the context refused the next step, and the loop fails with the
///   capacity failure that names the buffer which is beyond the decoder's
///   range: the input that is left, or else the scratch buffer.
pub open spec fn ran(
    before: Trail,
    after: Trail,
    offered: nat,
    capacity: nat,
    mode: FlushMode,
    verdict: Verdict,
) -> bool {
    let turns = new_turns(before, after);
    &&& after.turns == before.turns + turns
    &&& chained(turns, offered, capacity, mode)
    &&& went_on(turns, offered, mode)
    &&& turns.len() > 0 ==> within_range(before.consumed.len(), offered) && within_range(
        before.produced.len(),
        capacity,
    )
    &&& if wants_step(turns, offered, mode) {
        if !within_range(after.consumed.len(), left_over(turns, offered)) {
            verdict == (Verdict::Fail { error: EngineError::InputTooLarge })
        } else {
            &&& !within_range(after.produced.len(), capacity)
            &&& verdict == (Verdict::Fail { error: EngineError::OutputTooLarge })
        }
    } else if turns.len() == 0 {
        verdict == (Verdict::Stop { finished: false })
    } else {
        verdict == turn_verdict(turns.last())
    }
}

/// Feeding `input` through a scratch buffer of `capacity` bytes took a context
/// from `before` to `after` and came to `verdict`: the loop ran as [`ran`]
/// says, the decoder consumed the bytes of `input` in order, up to what its
/// last step left behind, and what its steps produced, and no more, was added
/// to what it had produced before.
pub open spec fn fed(before: Trail, after: Trail, input: Seq<u8>, capacity: nat, verdict: Verdict) -> bool {
    let turns = new_turns(before, after);
    let rest = left_over(turns, input.len());
    &&& ran(before, after, input.len(), capacity, FlushMode::NoFlush, verdict)
    &&& rest <= input.len()
    &&& after.consumed == before.consumed + input.take(input.len() - rest)
    &&& before.produced.is_prefix_of(after.produced)
    &&& after.produced.len() == before.produced.len() + yield_of(turns)
    &&& after.counted()
}

/// Finishing the stream through a scratch buffer of `capacity` bytes took a
/// context from `before` to `after` and came to `verdict`: the loop ran as
/// [`ran`] says, with no input, and what the decoder's steps produced, and no
/// more, was added to what it had produced before.
pub open spec fn flushed(before: Trail, after: Trail, capacity: nat, verdict: Verdict) -> bool {
    &&& ran(before, after, 0, capacity, FlushMode::Finish, verdict)
    &&& after.consumed == before.consumed
    &&& before.produced.is_prefix_of(after.produced)
    &&& after.produced.len() == before.produced.len() + yield_of(new_turns(before, after))
    &&& after.counted()
}

/// One more step, after steps that all called for another, keeps a loop's
/// steps hanging together.
proof fn lemma_one_more_turn(
    earlier: Seq<Turn>,
    turn: Turn,
    offered: nat,
    capacity: nat,
    mode: FlushMode,
)
    requires
        chained(earlier, offered, capacity, mode),
        kept_going(earlier),
        turn.mode == mode,
        turn.capacity == capacity,
        sound(turn),
        turn.offered == left_over(earlier, offered),
        mode is Finish || offered > 0,
    ensures
        chained(earlier.push(turn), offered, capacity, mode),
        went_on(earlier.push(turn), offered, mode),
        earlier.push(turn).last() == turn,
        left_over(earlier.push(turn), offered) == turn.remaining(),
        yield_of(earlier.push(turn)) == yield_of(earlier) + turn.outcome.produced,
        turn_verdict(turn) is Continue ==> kept_going(earlier.push(turn)),
{
    let turns = earlier.push(turn);
    assert(turns.drop_last() =~= earlier);
    assert forall|i: int| 0 <= i < turns.len() - 1 implies turns[i] == earlier[i] by {}
    assert forall|i: int, j: int| 0 <= i && j == i + 1 && j < turns.len() implies (
    #[trigger] turns[j]).offered == (#[trigger] turns[i]).remaining() by {
        if j < earlier.len() {
            assert(turns[j] == earlier[j]);
            assert(turns[i] == earlier[i]);
        } else {
            assert(turns[i] == earlier.last());
        }
    }
}

/// What a loop gathered, and what it came to.
pub struct Run {
    /// The bytes the decoder produced during the loop, in order. They are
    /// gathered up to the last step, also where the loop failed.
    pub output: Vec<u8>,
    /// The verdict that closed the loop: to stop or to fail.
    pub verdict: Verdict,
}

/// Appends the first `count` bytes of `scratch` to `output`.
fn gather(output: &mut Vec<u8>, scratch: &Vec<u8>, count: usize)
    requires
        count <= scratch@.len(),
    ensures
        final(output)@ == old(output)@ + scratch@.take(count as int),
{
    let front = slice_subrange(scratch.as_slice(), 0, count);
    output.extend_from_slice(front);
    assert(output@ =~= old(output)@ + scratch@.take(count as int));
}

/// Feeds `input` to the context through a scratch buffer of `capacity` bytes,
/// step after step, until a step's verdict is to stop or to fail.
///
/// With no input there is no step. Otherwise each step gets the input that
/// the steps before it left behind and a scratch buffer to fill from its
/// start; what it wrote is gathered before the verdict on it is taken.
pub fn feed(context: &mut Context, input: &[u8], capacity: usize) -> (run: Run)
    requires
        old(context).wf(),
    ensures
        final(context).wf(),
        !(run.verdict is Continue),
        fed(old(context)@, final(context)@, input@, capacity as nat, run.verdict),
        final(context)@.produced == old(context)@.produced + run.output@,
{
    let mut output: Vec<u8> = Vec::new();
    let ghost mut turns: Seq<Turn> = Seq::empty();
    proof {
        assert(input@.take(0) =~= Seq::<u8>::empty());
        assert(context@.consumed + input@.take(0) =~= context@.consumed);
        assert(context@.produced + output@ =~= context@.produced);
        assert(context@.turns + turns =~= context@.turns);
    }
    if input.len() == 0 {
        proof {
            assert(new_turns(old(context)@, context@) =~= turns);
        }
        return Run { output, verdict: Verdict::Stop { finished: false } };
    }
    let mut scratch: Vec<u8> = vec![0u8; capacity];
    let mut offset: usize = 0;
    loop
        invariant
            context.wf(),
            scratch@.len() == capacity,
            0 < input@.len(),
            offset <= input@.len(),
            context@.turns == old(context)@.turns + turns,
            context@.consumed == old(context)@.consumed + input@.take(offset as int),
            context@.produced == old(context)@.produced + output@,
            chained(turns, input@.len(), capacity as nat, FlushMode::NoFlush),
            kept_going(turns),
            left_over(turns, input@.len()) == input@.len() - offset,
            output@.len() == yield_of(turns),
            turns.len() > 0 ==> within_range(old(context)@.consumed.len(), input@.len())
                && within_range(old(context)@.produced.len(), capacity as nat),
        decreases 2 * u64::MAX - context@.consumed.len() - context@.produced.len(),
    {
        let rest = slice_subrange(input, offset, input.len());
        match context.step(rest, &mut scratch, FlushMode::NoFlush) {
            Err(overflow) => {
                proof {
                    assert(new_turns(old(context)@, context@) =~= turns);
                }
                let error = EngineError::from_overflow(overflow);
                return Run { output, verdict: Verdict::Fail { error } };
            },
            Ok(outcome) => {
                gather(&mut output, &scratch, outcome.produced);
                offset = offset + outcome.consumed;
                let ghost turn = Turn {
                    offered: rest@.len(),
                    capacity: capacity as nat,
                    mode: FlushMode::NoFlush,
                    outcome,
                };
                proof {
                    lemma_one_more_turn(
                        turns,
                        turn,
                        input@.len(),
                        capacity as nat,
                        FlushMode::NoFlush,
                    );
                    turns = turns.push(turn);
                    assert(input@.take(offset as int) =~= input@.take(offset - outcome.consumed)
                        + rest@.take(outcome.consumed as int));
                    assert(context@.consumed =~= old(context)@.consumed + input@.take(
                        offset as int,
                    ));
                    assert(context@.produced =~= old(context)@.produced + output@);
                    assert(context@.turns =~= old(context)@.turns + turns);
                    assert(new_turns(old(context)@, context@) =~= turns);
                }
                let verdict = judge_push_step(outcome, input.len() - offset, capacity);
                assert(verdict == turn_verdict(turn));
                match verdict {
                    Verdict::Continue => {},
                    _ => {
                        return Run { output, verdict };
                    },
                }
            },
        }
    }
}

/// Brings the stream to its end: steps the context with no input, through a
/// scratch buffer of `capacity` bytes, until a step's verdict is to stop or to
/// fail. What each step wrote is gathered before the verdict on it is taken.
pub fn flush(context: &mut Context, capacity: usize) -> (run: Run)
    requires
        old(context).wf(),
    ensures
        final(context).wf(),
        !(run.verdict is Continue),
        flushed(old(context)@, final(context)@, capacity as nat, run.verdict),
        final(context)@.produced == old(context)@.produced + run.output@,
{
    let mut output: Vec<u8> = Vec::new();
    let mut scratch: Vec<u8> = vec![0u8; capacity];
    let nothing: [u8; 0] = [];
    let ghost mut turns: Seq<Turn> = Seq::empty();
    proof {
        assert(context@.produced + output@ =~= context@.produced);
        assert(context@.turns + turns =~= context@.turns);
    }
    loop
        invariant
            context.wf(),
            scratch@.len() == capacity,
            nothing@.len() == 0,
            context@.turns == old(context)@.turns + turns,
            context@.consumed == old(context)@.consumed,
            context@.produced == old(context)@.produced + output@,
            chained(turns, 0, capacity as nat, FlushMode::Finish),
            kept_going(turns),
            left_over(turns, 0) == 0,
            output@.len() == yield_of(turns),
            turns.len() > 0 ==> within_range(old(context)@.consumed.len(), 0) && within_range(
                old(context)@.produced.len(),
                capacity as nat,
            ),
        decreases u64::MAX - context@.produced.len(),
    {
        match context.step(nothing.as_slice(), &mut scratch, FlushMode::Finish) {
            Err(overflow) => {
                proof {
                    assert(new_turns(old(context)@, context@) =~= turns);
                }
                let error = EngineError::from_overflow(overflow);
                return Run { output, verdict: Verdict::Fail { error } };
            },
            Ok(outcome) => {
                gather(&mut output, &scratch, outcome.produced);
                let ghost turn = Turn {
                    offered: 0,
                    capacity: capacity as nat,
                    mode: FlushMode::Finish,
                    outcome,
                };
                proof {
                    lemma_one_more_turn(turns, turn, 0, capacity as nat, FlushMode::Finish);
                    turns = turns.push(turn);
                    assert(nothing@.take(outcome.consumed as int) =~= Seq::<u8>::empty());
                    assert(context@.consumed =~= old(context)@.consumed + Seq::<u8>::empty());
                    assert(context@.consumed =~= old(context)@.consumed);
                    assert(context@.produced =~= old(context)@.produced + output@);
                    assert(context@.turns =~= old(context)@.turns + turns);
                    assert(new_turns(old(context)@, context@) =~= turns);
                }
                let verdict = judge_finish_step(outcome);
                match verdict {
                    Verdict::Continue => {},
                    _ => {
                        return Run { output, verdict };
                    },
                }
            },
        }
    }
}

} // verus!
