//! The decompression context: one zlib decoder, created once, fed many times.
//!
//! The decoder is an opaque value of the `zlib-rs` crate. Its behaviour is
//! described by two histories: the bytes it has taken in and the bytes it has
//! given out since it was created. Nothing is claimed about how the second
//! depends on the first.

use vstd::prelude::*;
use zlib_rs::{Inflate, InflateError, InflateFlush, Status};

verus! {

/// `zlib_rs::Inflate`, the decoder. Opaque to the verifier.
#[verifier::external_type_specification]
#[verifier::external_body]
pub struct ExInflate(zlib_rs::Inflate);

/// Every byte that a decoder has consumed from the inputs handed to it since
/// it was created, in order. The decoder keeps their number, not the bytes:
/// this is a name for its past.
pub uninterp spec fn consumed_by(decoder: Inflate) -> Seq<u8>;

/// Every byte that a decoder has written to the output buffers handed to it
/// since it was created, in order. Again a name for its past.
pub uninterp spec fn produced_by(decoder: Inflate) -> Seq<u8>;

/// What a decoder in this state reports when it is handed `input` and
/// `capacity` bytes of output space, in `mode`. The decoder allocates nothing
/// and reads nothing else while it steps, so its report rests on these alone.
pub uninterp spec fn reported_by(
    decoder: Inflate,
    input: Seq<u8>,
    capacity: nat,
    mode: FlushMode,
) -> StepStatus;

/// `after` is `before` followed by the first bytes of `source`.
pub open spec fn grows_from(before: Seq<u8>, after: Seq<u8>, source: Seq<u8>) -> bool {
    &&& before.len() <= after.len() <= before.len() + source.len()
    &&& after == before + source.take(after.len() - before.len())
}

/// How a step tells the decoder to treat the end of its input.
#[derive(Clone, Copy, Debug, PartialEq, Eq, Structural)]
pub enum FlushMode {
    /// More input may follow.
    NoFlush,
    /// No input will follow: bring the stream to its end.
    Finish,
}

/// The reason a decoder gives when it refuses to go on.
#[derive(Clone, Copy, Debug, PartialEq, Eq, Structural)]
pub enum ErrorCode {
    /// The stream asks for a preset dictionary.
    NeedDict,
    /// The decoder state is inconsistent.
    StreamError,
    /// The input is not a valid compressed stream.
    DataError,
    /// The decoder could not allocate memory.
    MemError,
}

/// What the decoder reports after a step.
#[derive(Clone, Copy, Debug, PartialEq, Eq, Structural)]
pub enum StepStatus {
    /// The decoder went as far as the buffers let it.
    Progress,
    /// The compressed stream has reached its end.
    StreamEnd,
    /// The decoder cannot go on with the buffers it was given.
    BufferFull,
    /// The decoder refuses the stream.
    Error(ErrorCode),
}

/// `zlib_rs::Inflate::new` with `window_bits` between 8 and 15, where it does
/// not panic on its configuration: the decoder it returns has consumed nothing
/// and produced nothing.
pub assume_specification[ Inflate::new ](expect_header: bool, window_bits: u8) -> (decoder: Inflate)
    requires
        8 <= window_bits <= 15,
    ensures
        consumed_by(decoder) == Seq::<u8>::empty(),
        produced_by(decoder) == Seq::<u8>::empty(),
;

/// `zlib_rs::Inflate::total_in`: the number of bytes consumed so far, as long
/// as that number fits the counter.
pub assume_specification[ Inflate::total_in ](decoder: &Inflate) -> (n: u64)
    ensures
        consumed_by(*decoder).len() <= u64::MAX ==> n == consumed_by(*decoder).len(),
;

/// `zlib_rs::Inflate::total_out`: the number of bytes produced so far, as long
/// as that number fits the counter.
pub assume_specification[ Inflate::total_out ](decoder: &Inflate) -> (n: u64)
    ensures
        produced_by(*decoder).len() <= u64::MAX ==> n == produced_by(*decoder).len(),
;

/// `zlib_rs::Inflate::decompress`, called with buffers that it can address
/// whole (it cuts a longer one down to `u32::MAX` bytes without a word) and
/// where its byte counters cannot overflow. The narrowest of them are a
/// `usize` and a C `unsigned long`; the target condition of this contract is
/// that the second is as wide as the first.
///
/// The decoder consumes some first bytes of `input` and writes its output to
/// the front of `output`, whose length stays as it was; the two histories
/// grow by exactly those bytes. The status is the decoder's own, variant for
/// variant, under its name. Of which one comes back this much is known: the
/// decoder reports progress only where it was not asked to finish and a byte
/// has moved. How much is consumed or produced is not claimed.
#[verifier::external_body]
fn decompress(decoder: &mut Inflate, input: &[u8], output: &mut Vec<u8>, mode: FlushMode) -> (status: StepStatus)
    requires
        input@.len() <= u32::MAX,
        old(output)@.len() <= u32::MAX,
        consumed_by(*old(decoder)).len() + input@.len() <= usize::MAX,
        produced_by(*old(decoder)).len() + old(output)@.len() <= usize::MAX,
    ensures
        final(output)@.len() == old(output)@.len(),
        grows_from(consumed_by(*old(decoder)), consumed_by(*final(decoder)), input@),
        grows_from(produced_by(*old(decoder)), produced_by(*final(decoder)), final(output)@),
        status == reported_by(*old(decoder), input@, old(output)@.len(), mode),
        status is Progress ==> mode is NoFlush && (consumed_by(*final(decoder)).len()
            > consumed_by(*old(decoder)).len() || produced_by(*final(decoder)).len()
            > produced_by(*old(decoder)).len()),
{
    let flush = match mode {
        FlushMode::NoFlush => InflateFlush::NoFlush,
        FlushMode::Finish => InflateFlush::Finish,
    };
    match decoder.decompress(input, output.as_mut_slice(), flush) {
        Ok(Status::Ok) => StepStatus::Progress,
        Ok(Status::StreamEnd) => StepStatus::StreamEnd,
        Ok(Status::BufError) => StepStatus::BufferFull,
        Err(InflateError::NeedDict { .. }) => StepStatus::Error(ErrorCode::NeedDict),
        Err(InflateError::StreamError) => StepStatus::Error(ErrorCode::StreamError),
        Err(InflateError::DataError) => StepStatus::Error(ErrorCode::DataError),
        Err(InflateError::MemError) => StepStatus::Error(ErrorCode::MemError),
    }
}

/// What one step did: how much input it took, how much output it gave, and
/// what the decoder said.
#[derive(Clone, Copy, Debug, PartialEq, Eq, Structural)]
pub struct StepOutcome {
    pub consumed: usize,
    pub produced: usize,
    pub status: StepStatus,
}

/// Which of the two buffers of a step is beyond the decoder's range.
#[derive(Clone, Copy, Debug, PartialEq, Eq, Structural)]
pub enum Overflow {
    /// The input: too long for one step, or for what was consumed before.
    Input,
    /// The output space: too long for one step, or for what was produced
    /// before.
    Output,
}

/// The longest buffer that the decoder addresses in one step.
pub const MAX_BUFFER_LEN: u64 = 0xffff_ffff;

/// Whether a decoder that has counted `total` bytes on one side can be handed
/// a buffer of `len` bytes on that side: the buffer is within what it
/// addresses in one step, and its counters, which are as wide as a `usize`,
/// can count all of it.
pub open spec fn within_range(total: nat, len: nat) -> bool {
    &&& len <= MAX_BUFFER_LEN
    &&& total + len <= usize::MAX
}

/// Whether a decoder that has counted `total` bytes on one side can be handed
/// a buffer of `len` bytes on that side.
pub fn has_room(total: u64, len: usize) -> (room: bool)
    ensures
        room == within_range(total as nat, len as nat),
{
    let widest = usize::MAX as u64;
    len as u64 <= MAX_BUFFER_LEN && total <= widest && len as u64 <= widest - total
}

/// The record of one step: what the decoder was offered and what it did with
/// it.
pub ghost struct Turn {
    /// The length of the input the step was handed.
    pub offered: nat,
    /// The length of the scratch buffer the step was handed.
    pub capacity: nat,
    pub mode: FlushMode,
    pub outcome: StepOutcome,
}

impl Turn {
    /// The input that the step left behind.
    pub open spec fn remaining(self) -> nat {
        (self.offered - self.outcome.consumed) as nat
    }
}

/// What a context has been through: the view of a [`Context`].
#[verifier::ext_equal]
pub ghost struct Trail {
    /// The compressed bytes the decoder has consumed, in order.
    pub consumed: Seq<u8>,
    /// The decompressed bytes the decoder has produced, in order.
    pub produced: Seq<u8>,
    /// The steps that were made, in order.
    pub turns: Seq<Turn>,
}

impl Trail {
    /// The trail of a context that has done nothing yet.
    pub open spec fn fresh() -> Trail {
        Trail { consumed: Seq::empty(), produced: Seq::empty(), turns: Seq::empty() }
    }

    /// Both byte histories fit the decoder's counters.
    pub open spec fn counted(self) -> bool {
        &&& self.consumed.len() <= usize::MAX
        &&& self.produced.len() <= usize::MAX
    }

    /// The trail after one more step, which was handed `input` and left
    /// `scratch` behind: the step took the first bytes of the one and wrote the
    /// first bytes of the other, as many as its outcome says.
    pub open spec fn after_step(self, turn: Turn, input: Seq<u8>, scratch: Seq<u8>) -> Trail {
        Trail {
            consumed: self.consumed + input.take(turn.outcome.consumed as int),
            produced: self.produced + scratch.take(turn.outcome.produced as int),
            turns: self.turns.push(turn),
        }
    }
}

/// A decompression context. It owns its decoder for its whole life; the
/// decoder is released when the context is dropped.
pub struct Context {
    decoder: Inflate,
    log: Ghost<Seq<Turn>>,
}

impl View for Context {
    type V = Trail;

    closed spec fn view(&self) -> Trail {
        Trail {
            consumed: consumed_by(self.decoder),
            produced: produced_by(self.decoder),
            turns: self.log@,
        }
    }
}

impl Context {
    /// The invariant of a context: its byte histories fit the decoder's
    /// counters.
    pub open spec fn wf(&self) -> bool {
        self@.counted()
    }

    /// What this context's decoder, as it stands, reports on a step that hands
    /// it `input` and `capacity` bytes of scratch space in `mode`.
    pub closed spec fn reports(&self, input: Seq<u8>, capacity: nat, mode: FlushMode) -> StepStatus {
        reported_by(self.decoder, input, capacity, mode)
    }

    /// A fresh context for a zlib-wrapped stream with the standard window.
    pub fn create() -> (context: Context)
        ensures
            context.wf(),
            context@ == Trail::fresh(),
    {
        Context { decoder: Inflate::new(true, 15), log: Ghost(Seq::empty()) }
    }

    /// One step of the decoder: feeds it `input`, lets it write to the front of
    /// `scratch`, and reports how far it got.
    ///
    /// The step is refused, before the decoder is touched, where `input` or
    /// `scratch` is beyond the decoder's range: longer than it addresses in one
    /// step, or than its byte counter can count on top of what it has counted
    /// already. Otherwise the decoder is called, once, and the status is what
    /// it reports.
    pub fn step(&mut self, input: &[u8], scratch: &mut Vec<u8>, mode: FlushMode) -> (result: Result<
        StepOutcome,
        Overflow,
    >)
        requires
            old(self).wf(),
        ensures
            final(self).wf(),
            final(scratch)@.len() == old(scratch)@.len(),
            result == Err::<StepOutcome, Overflow>(Overflow::Input) <==> !within_range(
                old(self)@.consumed.len(),
                input@.len(),
            ),
            result == Err::<StepOutcome, Overflow>(Overflow::Output) <==> within_range(
                old(self)@.consumed.len(),
                input@.len(),
            ) && !within_range(old(self)@.produced.len(), old(scratch)@.len()),
            result is Err ==> *final(self) == *old(self) && final(scratch)@ == old(scratch)@,
            result matches Ok(outcome) ==> {
                &&& outcome.status == old(self).reports(input@, old(scratch)@.len(), mode)
                &&& outcome.status is Progress ==> mode is NoFlush && outcome.consumed
                    + outcome.produced > 0
                &&& outcome.consumed <= input@.len()
                &&& outcome.produced <= final(scratch)@.len()
                &&& final(self)@ == old(self)@.after_step(
                    Turn {
                        offered: input@.len(),
                        capacity: old(scratch)@.len(),
                        mode,
                        outcome,
                    },
                    input@,
                    final(scratch)@,
                )
            },
    {
        let in_before = self.decoder.total_in();
        let out_before = self.decoder.total_out();
        if !has_room(in_before, input.len()) {
            return Err(Overflow::Input);
        }
        if !has_room(out_before, scratch.len()) {
            return Err(Overflow::Output);
        }
        let status = decompress(&mut self.decoder, input, scratch, mode);
        let consumed = (self.decoder.total_in() - in_before) as usize;
        let produced = (self.decoder.total_out() - out_before) as usize;
        let outcome = StepOutcome { consumed, produced, status };
        self.log = Ghost(
            self.log@.push(
                Turn { offered: input@.len(), capacity: scratch@.len(), mode, outcome },
            ),
        );
        Ok(outcome)
    }
}

} // verus!
