use stream_inflate::{Decompressor, EngineError, ErrorCode, StreamReply};
use zlib_rs::{Deflate, DeflateFlush, Status};

/// zlib's compression of the eleven bytes "hello world".
const HELLO: [u8; 19] = [
    0x78, 0x9c, 0xcb, 0x48, 0xcd, 0xc9, 0xc9, 0x57, 0x28, 0xcf, 0x2f, 0xca, 0x49, 0x01, 0x00, 0x1a,
    0x0b, 0x04, 0x5d,
];

/// A stream that holds "A" and then "B", each followed by a sync flush, and its
/// six closing bytes.
const SYNC_A: [u8; 9] = [0x78, 0x9c, 0x72, 0x04, 0x00, 0x00, 0x00, 0xff, 0xff];
const SYNC_B: [u8; 7] = [0x72, 0x02, 0x00, 0x00, 0x00, 0xff, 0xff];
const SYNC_END: [u8; 6] = [0x03, 0x00, 0x00, 0xc6, 0x00, 0x84];

fn stream_parts(reply: StreamReply) -> (Vec<u8>, bool) {
    match reply {
        StreamReply::Success { data, finished } => (data.unwrap_or_default(), finished),
        StreamReply::Failure { error } => panic!("unexpected failure: {}", error.message()),
    }
}

fn stream_error(reply: StreamReply) -> EngineError {
    match reply {
        StreamReply::Success { .. } => panic!("unexpected success"),
        StreamReply::Failure { error } => error,
    }
}

fn is_empty_success(reply: &StreamReply, expect_finished: bool) -> bool {
    matches!(reply, StreamReply::Success { data: None, finished } if *finished == expect_finished)
}

fn zlib_compress(input: &[u8]) -> Vec<u8> {
    let mut encoder = Deflate::new(6, true, 15);
    let mut out = vec![0u8; input.len() + input.len() / 2 + 128];
    let status = encoder.compress(input, &mut out, DeflateFlush::Finish).unwrap();
    assert_eq!(status, Status::StreamEnd);
    out.truncate(encoder.total_out() as usize);
    out
}

fn patterned(len: usize) -> Vec<u8> {
    let mut state: u32 = 12345;
    let mut bytes = Vec::with_capacity(len);
    for i in 0..len {
        state = state.wrapping_mul(1103515245).wrapping_add(12345);
        let noisy = (state >> 16) as u8;
        bytes.push(if i % 7 < 4 { noisy } else { (i / 100) as u8 });
    }
    bytes
}

#[test]
fn new_engine_is_active() {
    let engine = Decompressor::new();
    assert!(!engine.finished());
}

#[test]
fn whole_stream_in_one_push() {
    let mut engine = Decompressor::new();
    let reply = engine.push(&HELLO);
    assert!(reply.ok());
    let (data, finished) = stream_parts(reply);
    assert_eq!(data, b"hello world".to_vec());
    assert!(finished);
    assert!(engine.finished());
}

#[test]
fn stream_pushed_as_two_slices() {
    let mut engine = Decompressor::new();
    let (first, finished_first) = stream_parts(engine.push(&HELLO[..7]));
    assert!(!finished_first);
    assert!(!engine.finished());
    let (second, finished_second) = stream_parts(engine.push(&HELLO[7..]));
    assert!(finished_second);
    let mut all = first;
    all.extend_from_slice(&second);
    assert_eq!(all, b"hello world".to_vec());
    assert!(is_empty_success(&engine.finish(), true));
}

#[test]
fn every_split_point_gives_the_same_text() {
    for split in 0..=HELLO.len() {
        let mut engine = Decompressor::new();
        let (mut all, finished_first) = stream_parts(engine.push(&HELLO[..split]));
        assert_eq!(finished_first, split == HELLO.len());
        let (rest, finished_second) = stream_parts(engine.push(&HELLO[split..]));
        assert!(finished_second);
        all.extend_from_slice(&rest);
        assert_eq!(all, b"hello world".to_vec());
    }
}

#[test]
fn stream_pushed_byte_by_byte() {
    let mut engine = Decompressor::new();
    let mut all = Vec::new();
    for (index, byte) in HELLO.iter().enumerate() {
        let (data, finished) = stream_parts(engine.push(&[*byte]));
        all.extend_from_slice(&data);
        assert_eq!(finished, index + 1 == HELLO.len());
    }
    assert_eq!(all, b"hello world".to_vec());
}

#[test]
fn empty_push_gives_nothing_and_keeps_engine_active() {
    let mut engine = Decompressor::new();
    assert!(is_empty_success(&engine.push(&[]), false));
    assert!(!engine.finished());
    let (data, finished) = stream_parts(engine.push(&HELLO));
    assert_eq!(data, b"hello world".to_vec());
    assert!(finished);
}

#[test]
fn header_alone_gives_no_data() {
    let mut engine = Decompressor::new();
    assert!(is_empty_success(&engine.push(&HELLO[..2]), false));
}

#[test]
fn finished_engine_ignores_push_and_finish() {
    let mut engine = Decompressor::new();
    let (_, finished) = stream_parts(engine.push(&HELLO));
    assert!(finished);
    assert!(is_empty_success(&engine.push(&HELLO), true));
    assert!(is_empty_success(&engine.push(&[1, 2, 3]), true));
    assert!(is_empty_success(&engine.finish(), true));
    assert!(is_empty_success(&engine.push(&[]), true));
    assert!(engine.finished());
}

#[test]
fn bytes_behind_the_end_of_the_stream_are_ignored() {
    let mut input = HELLO.to_vec();
    input.extend_from_slice(&[9, 9, 9, 9]);
    let mut engine = Decompressor::new();
    let (data, finished) = stream_parts(engine.push(&input));
    assert_eq!(data, b"hello world".to_vec());
    assert!(finished);
}

#[test]
fn output_larger_than_the_scratch_buffer_is_gathered() {
    let original = vec![0u8; 100_000];
    let compressed = zlib_compress(&original);
    assert!(compressed.len() < 1000);
    let mut engine = Decompressor::new();
    let (data, finished) = stream_parts(engine.push(&compressed));
    assert_eq!(data.len(), 100_000);
    assert_eq!(data, original);
    assert!(finished);
}

#[test]
fn output_of_exactly_one_scratch_buffer() {
    let original = vec![7u8; 16384];
    let compressed = zlib_compress(&original);
    let mut engine = Decompressor::new();
    let (mut all, finished) = stream_parts(engine.push(&compressed));
    if !finished {
        let (rest, finished_late) = stream_parts(engine.finish());
        assert!(finished_late);
        all.extend_from_slice(&rest);
    }
    assert_eq!(all, original);
    assert!(engine.finished());
}

#[test]
fn round_trip_in_chunks_of_many_sizes() {
    let original = patterned(200_000);
    let compressed = zlib_compress(&original);
    for chunk in [1usize, 2, 3, 64, 1000, 16384, 70_000, 1_000_000] {
        let mut engine = Decompressor::new();
        let mut all = Vec::new();
        let mut seen_finished = false;
        for piece in compressed.chunks(chunk) {
            assert!(!seen_finished);
            let (data, finished) = stream_parts(engine.push(piece));
            all.extend_from_slice(&data);
            seen_finished = finished;
        }
        assert!(seen_finished);
        assert!(is_empty_success(&engine.finish(), true));
        assert_eq!(all, original);
    }
}

#[test]
fn chunking_does_not_change_the_output() {
    let original = patterned(50_000);
    let compressed = zlib_compress(&original);
    let mut whole = Decompressor::new();
    let (expected, _) = stream_parts(whole.push(&compressed));
    let mut engine = Decompressor::new();
    let mut all = Vec::new();
    let mut at = 0usize;
    let mut step = 1usize;
    while at < compressed.len() {
        let end = usize::min(at + step, compressed.len());
        let (data, _) = stream_parts(engine.push(&compressed[at..end]));
        all.extend_from_slice(&data);
        at = end;
        step = step * 3 + 1;
    }
    assert_eq!(all, expected);
    assert_eq!(all, original);
}

#[test]
fn sync_flushed_stream_is_not_finished_until_its_end() {
    let mut engine = Decompressor::new();
    let (a, finished_a) = stream_parts(engine.push(&SYNC_A));
    assert_eq!(a, b"A".to_vec());
    assert!(!finished_a);
    let (b, finished_b) = stream_parts(engine.push(&SYNC_B));
    assert_eq!(b, b"B".to_vec());
    assert!(!finished_b);
    let (rest, finished_end) = stream_parts(engine.push(&SYNC_END));
    assert!(rest.is_empty());
    assert!(finished_end);
}

#[test]
fn finish_on_a_truncated_stream_fails() {
    let mut engine = Decompressor::new();
    let (_, finished) = stream_parts(engine.push(&HELLO[..10]));
    assert!(!finished);
    let reply = engine.finish();
    assert!(!reply.ok());
    assert_eq!(stream_error(reply), EngineError::BufferTooSmall);
    assert!(engine.finished());
    assert!(is_empty_success(&engine.push(&HELLO[10..]), true));
}

#[test]
fn finish_before_any_input_fails() {
    let mut engine = Decompressor::new();
    assert_eq!(stream_error(engine.finish()), EngineError::BufferTooSmall);
    assert!(engine.finished());
    assert!(is_empty_success(&engine.finish(), true));
}

#[test]
fn finish_after_a_sync_flush_fails_without_the_closing_bytes() {
    let mut engine = Decompressor::new();
    let (a, _) = stream_parts(engine.push(&SYNC_A));
    assert_eq!(a, b"A".to_vec());
    assert_eq!(stream_error(engine.finish()), EngineError::BufferTooSmall);
}

#[test]
fn bytes_that_are_no_stream_fail_and_finish_the_engine() {
    let mut engine = Decompressor::new();
    let reply = engine.push(&[1, 2, 3, 4, 5]);
    assert!(!reply.ok());
    assert_eq!(stream_error(reply), EngineError::PushFailed(ErrorCode::DataError));
    assert!(engine.finished());
    assert!(is_empty_success(&engine.push(&HELLO), true));
    assert!(is_empty_success(&engine.finish(), true));
}

#[test]
fn wrong_checksum_fails() {
    let mut input = HELLO.to_vec();
    input[18] ^= 0xff;
    let mut engine = Decompressor::new();
    assert_eq!(stream_error(engine.push(&input)), EngineError::PushFailed(ErrorCode::DataError));
    assert!(engine.finished());
}

#[test]
fn corruption_in_a_later_push_drops_that_push() {
    let mut engine = Decompressor::new();
    let (first, _) = stream_parts(engine.push(&HELLO[..15]));
    assert_eq!(first, b"hello world".to_vec());
    let error = stream_error(engine.push(&[0, 0, 0, 0]));
    assert_eq!(error, EngineError::PushFailed(ErrorCode::DataError));
    assert!(engine.finished());
}

#[test]
fn stream_that_wants_a_dictionary_fails() {
    let mut engine = Decompressor::new();
    let error = stream_error(engine.push(&[0x78, 0x20, 0, 0, 0, 1, 0x03, 0x00]));
    assert_eq!(error, EngineError::PushFailed(ErrorCode::NeedDict));
    assert!(engine.finished());
}

#[test]
fn engines_are_independent() {
    let mut left = Decompressor::new();
    let mut right = Decompressor::new();
    let (l1, _) = stream_parts(left.push(&HELLO[..9]));
    let (r, r_finished) = stream_parts(right.push(&HELLO));
    let (l2, l_finished) = stream_parts(left.push(&HELLO[9..]));
    assert!(r_finished && l_finished);
    let mut l = l1;
    l.extend_from_slice(&l2);
    assert_eq!(l, r);
}
