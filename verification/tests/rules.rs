use stream_inflate::context::{has_room, MAX_BUFFER_LEN};
use stream_inflate::policy::{judge_finish_step, judge_push_step, Verdict};
use stream_inflate::reply::pack;
use stream_inflate::{
    Context, EngineError, ErrorCode, FlushMode, Overflow, StepOutcome, StepStatus,
    OUTPUT_CHUNK_SIZE,
};

const HELLO_STREAM: [u8; 19] = [
    0x78, 0x9c, 0xcb, 0x48, 0xcd, 0xc9, 0xc9, 0x57, 0x28, 0xcf, 0x2f, 0xca, 0x49, 0x01, 0x00, 0x1a,
    0x0b, 0x04, 0x5d,
];

fn outcome(consumed: usize, produced: usize, status: StepStatus) -> StepOutcome {
    StepOutcome { consumed, produced, status }
}

#[test]
fn scratch_buffer_is_sixteen_kibibytes() {
    assert_eq!(OUTPUT_CHUNK_SIZE, 16 * 1024);
}

#[test]
fn counter_room_is_exact() {
    assert!(has_room(0, 0));
    assert!(has_room(0, 16384));
    assert!(has_room(u64::MAX, 0));
    assert!(!has_room(u64::MAX, 1));
    assert!(has_room(u64::MAX - 4, 4));
    assert!(!has_room(u64::MAX - 3, 4));
}

#[test]
fn buffer_longer_than_one_step_addresses_has_no_room() {
    assert_eq!(MAX_BUFFER_LEN, u32::MAX as u64);
    assert!(has_room(0, u32::MAX as usize));
    assert!(!has_room(0, u32::MAX as usize + 1));
    assert!(has_room(1 << 40, u32::MAX as usize));
    assert!(!has_room(1 << 40, u32::MAX as usize + 1));
    assert!(!has_room(u64::MAX - 10, u32::MAX as usize));
}

#[test]
fn push_verdict_on_decoder_error() {
    for code in [ErrorCode::NeedDict, ErrorCode::StreamError, ErrorCode::DataError, ErrorCode::MemError] {
        assert_eq!(
            judge_push_step(outcome(3, 5, StepStatus::Error(code)), 0, 8),
            Verdict::Fail { error: EngineError::PushFailed(code) }
        );
    }
}

#[test]
fn push_verdict_on_stream_end() {
    assert_eq!(judge_push_step(outcome(3, 5, StepStatus::StreamEnd), 4, 8), Verdict::Stop { finished: true });
    assert_eq!(judge_push_step(outcome(0, 0, StepStatus::StreamEnd), 0, 8), Verdict::Stop { finished: true });
}

#[test]
fn push_verdict_on_progress() {
    assert_eq!(judge_push_step(outcome(4, 5, StepStatus::Progress), 0, 8), Verdict::Stop { finished: false });
    assert_eq!(judge_push_step(outcome(4, 0, StepStatus::Progress), 0, 8), Verdict::Stop { finished: false });
    assert_eq!(judge_push_step(outcome(4, 8, StepStatus::Progress), 0, 8), Verdict::Continue);
    assert_eq!(judge_push_step(outcome(4, 8, StepStatus::Progress), 2, 8), Verdict::Continue);
    assert_eq!(judge_push_step(outcome(4, 5, StepStatus::Progress), 2, 8), Verdict::Continue);
    assert_eq!(judge_push_step(outcome(4, 0, StepStatus::Progress), 2, 8), Verdict::Continue);
    assert_eq!(judge_push_step(outcome(0, 3, StepStatus::Progress), 2, 8), Verdict::Continue);
    assert_eq!(
        judge_push_step(outcome(0, 0, StepStatus::Progress), 2, 8),
        Verdict::Fail { error: EngineError::Stalled }
    );
}

#[test]
fn push_verdict_on_full_buffer() {
    assert_eq!(judge_push_step(outcome(0, 0, StepStatus::BufferFull), 0, 8), Verdict::Stop { finished: false });
    assert_eq!(judge_push_step(outcome(2, 3, StepStatus::BufferFull), 0, 8), Verdict::Stop { finished: false });
    assert_eq!(judge_push_step(outcome(2, 8, StepStatus::BufferFull), 0, 8), Verdict::Continue);
    assert_eq!(judge_push_step(outcome(2, 8, StepStatus::BufferFull), 5, 8), Verdict::Continue);
    assert_eq!(judge_push_step(outcome(0, 1, StepStatus::BufferFull), 5, 8), Verdict::Continue);
    assert_eq!(
        judge_push_step(outcome(0, 0, StepStatus::BufferFull), 5, 8),
        Verdict::Fail { error: EngineError::Stalled }
    );
    assert_eq!(
        judge_push_step(outcome(2, 0, StepStatus::BufferFull), 5, 8),
        Verdict::Fail { error: EngineError::Stalled }
    );
}

#[test]
fn push_verdict_with_empty_scratch_buffer() {
    assert_eq!(judge_push_step(outcome(4, 0, StepStatus::Progress), 0, 0), Verdict::Continue);
    assert_eq!(
        judge_push_step(outcome(0, 0, StepStatus::Progress), 0, 0),
        Verdict::Fail { error: EngineError::Stalled }
    );
    assert_eq!(
        judge_push_step(outcome(0, 0, StepStatus::BufferFull), 0, 0),
        Verdict::Fail { error: EngineError::Stalled }
    );
}

#[test]
fn finish_verdicts() {
    assert_eq!(judge_finish_step(outcome(0, 0, StepStatus::StreamEnd)), Verdict::Stop { finished: true });
    assert_eq!(judge_finish_step(outcome(0, 9, StepStatus::StreamEnd)), Verdict::Stop { finished: true });
    assert_eq!(judge_finish_step(outcome(0, 0, StepStatus::Progress)), Verdict::Stop { finished: true });
    assert_eq!(judge_finish_step(outcome(0, 9, StepStatus::Progress)), Verdict::Continue);
    assert_eq!(judge_finish_step(outcome(0, 9, StepStatus::BufferFull)), Verdict::Continue);
    assert_eq!(
        judge_finish_step(outcome(0, 0, StepStatus::BufferFull)),
        Verdict::Fail { error: EngineError::BufferTooSmall }
    );
    assert_eq!(
        judge_finish_step(outcome(0, 4, StepStatus::Error(ErrorCode::DataError))),
        Verdict::Fail { error: EngineError::FinishFailed(ErrorCode::DataError) }
    );
}

#[test]
fn messages_of_the_failures() {
    assert_eq!(EngineError::InputTooLarge.message(), "Input chunk too large");
    assert_eq!(EngineError::OutputTooLarge.message(), "Output chunk size too large");
    assert_eq!(EngineError::PushFailed(ErrorCode::NeedDict).message(), "Inflate error: NeedDict");
    assert_eq!(EngineError::PushFailed(ErrorCode::StreamError).message(), "Inflate error: StreamError");
    assert_eq!(EngineError::PushFailed(ErrorCode::DataError).message(), "Inflate error: DataError");
    assert_eq!(EngineError::PushFailed(ErrorCode::MemError).message(), "Inflate error: MemError");
    assert_eq!(EngineError::FinishFailed(ErrorCode::NeedDict).message(), "Inflate finish error: NeedDict");
    assert_eq!(
        EngineError::FinishFailed(ErrorCode::StreamError).message(),
        "Inflate finish error: StreamError"
    );
    assert_eq!(EngineError::FinishFailed(ErrorCode::DataError).message(), "Inflate finish error: DataError");
    assert_eq!(EngineError::FinishFailed(ErrorCode::MemError).message(), "Inflate finish error: MemError");
    assert_eq!(EngineError::BufferTooSmall.message(), "Output buffer too small to finish inflation");
    assert_eq!(EngineError::Stalled.message(), "Inflate made no progress");
}

#[test]
fn only_capacity_failures_leave_the_engine_active() {
    assert!(!EngineError::InputTooLarge.terminal());
    assert!(!EngineError::OutputTooLarge.terminal());
    assert!(EngineError::PushFailed(ErrorCode::DataError).terminal());
    assert!(EngineError::FinishFailed(ErrorCode::MemError).terminal());
    assert!(EngineError::BufferTooSmall.terminal());
    assert!(EngineError::Stalled.terminal());
}

#[test]
fn overflow_maps_to_capacity_failure() {
    assert_eq!(EngineError::from_overflow(Overflow::Input), EngineError::InputTooLarge);
    assert_eq!(EngineError::from_overflow(Overflow::Output), EngineError::OutputTooLarge);
}

#[test]
fn data_is_present_only_if_non_empty() {
    assert_eq!(pack(Vec::new()), None);
    assert_eq!(pack(vec![0]), Some(vec![0]));
    assert_eq!(pack(vec![1, 2, 3]), Some(vec![1, 2, 3]));
}

#[test]
fn step_fills_scratch_from_its_start() {
    let mut context = Context::create();
    let mut scratch = vec![0xaau8; 4];
    let first = context.step(&HELLO_STREAM, &mut scratch, FlushMode::NoFlush).unwrap();
    assert_eq!(first.produced, 4);
    assert_eq!(first.status, StepStatus::Progress);
    assert!(first.consumed <= HELLO_STREAM.len());
    assert_eq!(scratch, b"hell".to_vec());
    let mut rest = vec![0u8; 64];
    let second = context.step(&HELLO_STREAM[first.consumed..], &mut rest, FlushMode::NoFlush).unwrap();
    assert_eq!(second.produced, 7);
    assert_eq!(second.consumed, HELLO_STREAM.len() - first.consumed);
    assert_eq!(second.status, StepStatus::StreamEnd);
    assert_eq!(&rest[..7], b"o world");
    assert_eq!(rest.len(), 64);
}

#[test]
fn step_without_input_makes_no_progress() {
    let mut context = Context::create();
    let mut scratch = vec![0u8; 16];
    let idle = context.step(&[], &mut scratch, FlushMode::NoFlush).unwrap();
    assert_eq!(idle, outcome(0, 0, StepStatus::BufferFull));
    let flushed = context.step(&[], &mut scratch, FlushMode::Finish).unwrap();
    assert_eq!(flushed, outcome(0, 0, StepStatus::BufferFull));
}

#[test]
fn step_reports_bad_data() {
    let mut context = Context::create();
    let mut scratch = vec![0u8; 16];
    let bad = context.step(&[1, 2, 3, 4], &mut scratch, FlushMode::NoFlush).unwrap();
    assert_eq!(bad.status, StepStatus::Error(ErrorCode::DataError));
    assert_eq!(bad.produced, 0);
}
