use llrt_stream::byte_controller::{ArrayBufferView, ReadableStreamByteController};
use llrt_stream::byte_queue::{
    convert_pull_into_descriptor, copy_data_block_bytes, fill_pull_into_descriptor_from_queue,
    PullIntoDescriptor, PullIntoDescriptorReaderType, ReadableByteStreamQueueEntry,
};
use llrt_stream::default_controller::{EnqueueRoute, ReadableStreamDefaultController, ValueWithSize};
use llrt_stream::effect::{Chunk, ReadableEffect, Reason, StreamError, ViewType};
use llrt_stream::readable::{
    CancelOutcome, ClosedPromise, ReadableStream, ReadableStreamController, ReadableStreamState,
};
use llrt_stream::reader::{
    release_lock, reader_cancel, switch_reader, ReadableStreamBYOBReader, ReadableStreamDefaultReader,
    ReadableStreamReader, ReadableStreamTeeState,
};

fn default_stream() -> (ReadableStream, ReadableStreamController) {
    ReadableStream::new_default_stream(Ok(())).unwrap()
}

fn byte_stream(hwm: usize, auto: Option<usize>) -> (ReadableStream, ReadableStreamController) {
    ReadableStream::new_byte_stream(false, Ok(hwm), auto).unwrap()
}

fn byte_ctl(c: &mut ReadableStreamController) -> &mut ReadableStreamByteController {
    match c {
        ReadableStreamController::ReadableStreamByteController(b) => b,
        _ => panic!("expected a byte controller"),
    }
}

fn default_ctl(c: &mut ReadableStreamController) -> &mut ReadableStreamDefaultController {
    match c {
        ReadableStreamController::ReadableStreamDefaultController(d) => d,
        _ => panic!("expected a default controller"),
    }
}

fn entry(buffer: u64, byte_offset: usize, byte_length: usize) -> ReadableByteStreamQueueEntry {
    ReadableByteStreamQueueEntry { buffer, byte_offset, byte_length }
}

fn descriptor(buffer: u64, byte_length: usize, minimum_fill: usize, view_type: ViewType) -> PullIntoDescriptor {
    PullIntoDescriptor {
        buffer,
        buffer_byte_length: byte_length,
        byte_offset: 0,
        byte_length,
        bytes_filled: 0,
        minimum_fill,
        element_size: view_type.element_size(),
        view_type,
        reader_type: PullIntoDescriptorReaderType::Byob,
    }
}

#[test]
fn fill_takes_whole_chunks_and_part_of_the_next() {
    let mut queue = vec![entry(1, 0, 3), entry(2, 10, 5)];
    let mut total = 8;
    let mut desc = descriptor(9, 6, 1, ViewType::Uint8Array);
    let mut effects = Vec::new();
    let ready = fill_pull_into_descriptor_from_queue(&mut queue, &mut total, &mut desc, &mut effects);
    assert!(ready);
    assert_eq!(desc.bytes_filled, 6);
    assert_eq!(total, 2);
    assert_eq!(queue, vec![entry(2, 13, 2)]);
    assert_eq!(
        effects,
        vec![
            ReadableEffect::CopyBytes { to: 9, to_index: 0, from: 1, from_index: 0, count: 3 },
            ReadableEffect::CopyBytes { to: 9, to_index: 3, from: 2, from_index: 10, count: 3 },
        ]
    );
}

#[test]
fn fill_stops_at_whole_elements() {
    // Uint32 elements: 7 queued bytes fill one element and leave 3 bytes queued.
    let mut queue = vec![entry(1, 0, 7)];
    let mut total = 7;
    let mut desc = descriptor(9, 8, 4, ViewType::Uint32Array);
    let mut effects = Vec::new();
    let ready = fill_pull_into_descriptor_from_queue(&mut queue, &mut total, &mut desc, &mut effects);
    assert!(ready);
    assert_eq!(desc.bytes_filled, 4);
    assert_eq!(total, 3);
    assert_eq!(queue, vec![entry(1, 4, 3)]);
}

#[test]
fn fill_below_minimum_takes_everything_and_waits() {
    let mut queue = vec![entry(1, 0, 2)];
    let mut total = 2;
    let mut desc = descriptor(9, 8, 4, ViewType::Uint32Array);
    let mut effects = Vec::new();
    let ready = fill_pull_into_descriptor_from_queue(&mut queue, &mut total, &mut desc, &mut effects);
    assert!(!ready);
    assert_eq!(desc.bytes_filled, 2);
    assert_eq!(total, 0);
    assert!(queue.is_empty());
}

#[test]
fn filled_view_counts_whole_elements() {
    let mut desc = descriptor(5, 8, 4, ViewType::Uint16Array);
    desc.bytes_filled = 6;
    let mut effects = Vec::new();
    let view = convert_pull_into_descriptor(&desc, &mut effects);
    assert_eq!(view, Chunk::View { buffer: 5, byte_offset: 0, length: 3, view: ViewType::Uint16Array });
    assert_eq!(effects, vec![ReadableEffect::TransferBuffer { buffer: 5 }]);
}

#[test]
fn copy_data_block_bytes_copies_the_range_only() {
    let mut to = vec![0u8; 6];
    let from = vec![1u8, 2, 3, 4, 5];
    copy_data_block_bytes(&mut to, 2, &from, 1, 3);
    assert_eq!(to, vec![0, 0, 2, 3, 4, 0]);
}

#[test]
fn element_sizes_follow_the_typed_array_table() {
    assert_eq!(ViewType::Uint8Array.element_size(), 1);
    assert_eq!(ViewType::Int16Array.element_size(), 2);
    assert_eq!(ViewType::Float32Array.element_size(), 4);
    assert_eq!(ViewType::BigInt64Array.element_size(), 8);
    assert_eq!(ViewType::DataView.element_size(), 1);
    assert!(!ViewType::DataView.is_typed_array());
}

#[test]
fn a_reader_locks_the_stream_once() {
    let (mut s, _) = default_stream();
    assert!(!s.locked());
    let r = ReadableStreamDefaultReader::new(&mut s, 7).unwrap();
    assert_eq!(r.generic.closed_promise, ClosedPromise::Pending);
    assert!(s.locked());
    assert_eq!(ReadableStreamDefaultReader::new(&mut s, 8), Err(StreamError::ReadableLocked));
    assert!(matches!(s.get_reader(false, 9), Err(StreamError::ReadableLocked)));
}

#[test]
fn byob_reader_needs_a_byte_source() {
    let (mut s, _) = default_stream();
    assert_eq!(ReadableStreamBYOBReader::new(&mut s, 1), Err(StreamError::NotByteSource));
    let (mut b, _) = byte_stream(0, None);
    assert!(matches!(b.get_reader(true, 2), Ok(ReadableStreamReader::ReadableStreamBYOBReader(_))));
}

#[test]
fn close_answers_every_pending_read() {
    let (mut s, mut c) = default_stream();
    ReadableStreamDefaultReader::new(&mut s, 3).unwrap();
    let mut effects = Vec::new();
    ReadableStreamDefaultReader::read(&mut s, &mut c, 3, 100, Err(Reason::Undefined), &mut effects).unwrap();
    ReadableStreamDefaultReader::read(&mut s, &mut c, 3, 101, Err(Reason::Undefined), &mut effects).unwrap();
    assert_eq!(s.read_requests, vec![100, 101]);
    effects.clear();
    default_ctl(&mut c).close(&mut s, &mut effects).unwrap();
    assert_eq!(s.state, ReadableStreamState::Closed);
    assert!(s.read_requests.is_empty());
    assert_eq!(
        effects,
        vec![
            ReadableEffect::ClearAlgorithms,
            ReadableEffect::ResolveClosed { reader: 3 },
            ReadableEffect::ReadClose { request: 100, closing_chunk: None },
            ReadableEffect::ReadClose { request: 101, closing_chunk: None },
        ]
    );
}

#[test]
fn error_answers_every_pending_read_with_the_error() {
    let (mut s, mut c) = default_stream();
    ReadableStreamDefaultReader::new(&mut s, 3).unwrap();
    let mut effects = Vec::new();
    ReadableStreamDefaultReader::read(&mut s, &mut c, 3, 100, Err(Reason::Undefined), &mut effects).unwrap();
    effects.clear();
    default_ctl(&mut c).readable_stream_default_controller_error(&mut s, Reason::Value(55), &mut effects);
    assert_eq!(s.state, ReadableStreamState::Errored);
    assert_eq!(s.stored_error, Some(Reason::Value(55)));
    assert_eq!(
        effects,
        vec![
            ReadableEffect::QueueReset,
            ReadableEffect::ClearAlgorithms,
            ReadableEffect::RejectClosed { reader: 3, reason: Reason::Value(55) },
            ReadableEffect::ReadError { request: 100, reason: Reason::Value(55) },
        ]
    );
}

#[test]
fn enqueue_goes_to_a_waiting_read_first() {
    let (mut s, mut c) = default_stream();
    ReadableStreamDefaultReader::new(&mut s, 3).unwrap();
    let mut effects = Vec::new();
    ReadableStreamDefaultReader::read(&mut s, &mut c, 3, 100, Err(Reason::Undefined), &mut effects).unwrap();
    effects.clear();
    let route = default_ctl(&mut c).enqueue(&mut s, 42, &mut effects).unwrap();
    assert_eq!(route, EnqueueRoute::Fulfilled);
    assert_eq!(
        effects,
        vec![
            ReadableEffect::ReadChunk { request: 100, chunk: Chunk::Value(42) },
            ReadableEffect::PullIfNeeded,
        ]
    );
}

#[test]
fn enqueue_without_reader_asks_for_a_size_and_queues() {
    let (mut s, mut c) = default_stream();
    let mut effects = Vec::new();
    let d = default_ctl(&mut c);
    assert_eq!(d.enqueue(&mut s, 42, &mut effects), Ok(EnqueueRoute::NeedsSize));
    d.enqueue_sized(&mut s, 42, Ok(7), &mut effects).unwrap();
    assert_eq!(d.queue, vec![ValueWithSize { value: 42, size: 7 }]);
    assert_eq!(effects, vec![ReadableEffect::PullIfNeeded]);
}

#[test]
fn default_reads_take_queued_values_in_order() {
    let (mut s, mut c) = default_stream();
    let mut effects = Vec::new();
    {
        let d = default_ctl(&mut c);
        d.enqueue_sized(&mut s, 41, Ok(1), &mut effects).unwrap();
        d.enqueue_sized(&mut s, 42, Ok(2), &mut effects).unwrap();
        d.enqueue_sized(&mut s, 43, Ok(3), &mut effects).unwrap();
    }
    ReadableStreamDefaultReader::new(&mut s, 3).unwrap();
    let mut read_values = Vec::new();
    for request in [100u64, 101, 102] {
        effects.clear();
        ReadableStreamDefaultReader::read(&mut s, &mut c, 3, request, Err(Reason::Undefined), &mut effects).unwrap();
        match effects.last() {
            Some(ReadableEffect::ReadChunk { request: r, chunk: Chunk::Value(v) }) => {
                assert_eq!(*r, request);
                read_values.push(*v);
            },
            other => panic!("unexpected last step {:?}", other),
        }
    }
    assert_eq!(read_values, vec![41, 42, 43]);
    assert!(default_ctl(&mut c).queue.is_empty());
}

#[test]
fn a_sized_chunk_is_queued_even_after_the_stream_closed() {
    let (mut s, mut c) = default_stream();
    let mut effects = Vec::new();
    let d = default_ctl(&mut c);
    assert_eq!(d.enqueue(&mut s, 42, &mut effects), Ok(EnqueueRoute::NeedsSize));
    // The size algorithm closed the stream before answering.
    d.close(&mut s, &mut effects).unwrap();
    assert_eq!(s.state, ReadableStreamState::Closed);
    effects.clear();
    assert_eq!(d.enqueue_sized(&mut s, 42, Ok(7), &mut effects), Ok(()));
    assert_eq!(d.queue, vec![ValueWithSize { value: 42, size: 7 }]);
    assert_eq!(effects, vec![ReadableEffect::PullIfNeeded]);
    effects.clear();
    assert_eq!(d.enqueue_sized(&mut s, 43, Err(Reason::Value(9)), &mut effects), Err(Reason::Value(9)));
    assert_eq!(s.state, ReadableStreamState::Closed);
    assert_eq!(d.queue.len(), 1);
    assert!(effects.is_empty());
}

#[test]
fn erroring_a_stream_marks_a_byob_readers_closed_promise_handled() {
    let (mut s, mut c) = byte_stream(0, None);
    ReadableStreamBYOBReader::new(&mut s, 4).unwrap();
    let mut effects = Vec::new();
    byte_ctl(&mut c).error(&mut s, Reason::Value(8), &mut effects);
    assert_eq!(effects.last(), Some(&ReadableEffect::RejectClosed { reader: 4, reason: Reason::Value(8) }));
}

#[test]
fn a_failed_size_errors_the_stream() {
    let (mut s, mut c) = default_stream();
    let mut effects = Vec::new();
    let d = default_ctl(&mut c);
    let r = d.enqueue_sized(&mut s, 42, Err(Reason::Value(9)), &mut effects);
    assert_eq!(r, Err(Reason::Value(9)));
    assert_eq!(s.state, ReadableStreamState::Errored);
    assert!(d.algorithms_cleared);
}

#[test]
fn read_of_queued_value_after_close_closes_the_stream() {
    let (mut s, mut c) = default_stream();
    let mut effects = Vec::new();
    {
        let d = default_ctl(&mut c);
        d.enqueue_sized(&mut s, 42, Ok(1), &mut effects).unwrap();
        d.close(&mut s, &mut effects).unwrap();
    }
    assert_eq!(s.state, ReadableStreamState::Readable);
    ReadableStreamDefaultReader::new(&mut s, 3).unwrap();
    effects.clear();
    ReadableStreamDefaultReader::read(&mut s, &mut c, 3, 100, Err(Reason::Undefined), &mut effects).unwrap();
    assert_eq!(s.state, ReadableStreamState::Closed);
    assert_eq!(
        effects,
        vec![
            ReadableEffect::Dequeued { value: 42, size: 1 },
            ReadableEffect::ClearAlgorithms,
            ReadableEffect::ResolveClosed { reader: 3 },
            ReadableEffect::ReadChunk { request: 100, chunk: Chunk::Value(42) },
        ]
    );
}

#[test]
fn closing_twice_is_refused() {
    let (mut s, mut c) = default_stream();
    let mut effects = Vec::new();
    let d = default_ctl(&mut c);
    d.close(&mut s, &mut effects).unwrap();
    assert_eq!(d.close(&mut s, &mut effects), Err(StreamError::DefaultCannotClose));
    assert_eq!(d.enqueue(&mut s, 1, &mut effects), Err(StreamError::DefaultCannotEnqueue));
}

#[test]
fn pulling_waits_for_start_and_runs_once_at_a_time() {
    let (mut s, mut c) = default_stream();
    let mut effects = Vec::new();
    let d = default_ctl(&mut c);
    d.readable_stream_default_controller_call_pull_if_needed(&s, true, &mut effects);
    assert!(effects.is_empty());
    d.start_fulfilled();
    d.readable_stream_default_controller_call_pull_if_needed(&s, true, &mut effects);
    assert_eq!(effects, vec![ReadableEffect::CallPull]);
    d.readable_stream_default_controller_call_pull_if_needed(&s, true, &mut effects);
    assert_eq!(effects, vec![ReadableEffect::CallPull]);
    assert!(d.pull_again);
    assert!(d.pull_fulfilled(&mut effects));
    assert!(!d.pulling);
    ReadableStreamDefaultReader::new(&mut s, 1).unwrap();
}

#[test]
fn cancel_of_a_locked_stream_is_refused() {
    let (mut s, mut c) = default_stream();
    ReadableStreamDefaultReader::new(&mut s, 1).unwrap();
    let mut effects = Vec::new();
    assert_eq!(s.cancel(&mut c, Reason::Undefined, &mut effects), Err(StreamError::CancelLockedStream));
}

#[test]
fn cancel_closes_and_runs_the_cancel_algorithm() {
    let (mut s, mut c) = default_stream();
    let mut effects = Vec::new();
    assert_eq!(s.cancel(&mut c, Reason::Value(4), &mut effects), Ok(CancelOutcome::FromCancelAlgorithm));
    assert_eq!(s.state, ReadableStreamState::Closed);
    assert!(s.disturbed);
    assert_eq!(
        effects,
        vec![
            ReadableEffect::QueueReset,
            ReadableEffect::CallCancel { reason: Reason::Value(4) },
            ReadableEffect::ClearAlgorithms,
        ]
    );
    effects.clear();
    assert_eq!(s.cancel(&mut c, Reason::Value(4), &mut effects), Ok(CancelOutcome::Resolved));
    assert!(effects.is_empty());
}

#[test]
fn cancel_of_an_errored_stream_rejects_with_its_error() {
    let (mut s, mut c) = default_stream();
    let mut effects = Vec::new();
    default_ctl(&mut c).readable_stream_default_controller_error(&mut s, Reason::Value(8), &mut effects);
    assert_eq!(s.cancel(&mut c, Reason::Value(4), &mut effects), Ok(CancelOutcome::Rejected(Reason::Value(8))));
}

#[test]
fn release_fails_pending_reads_and_unlocks() {
    let (mut s, mut c) = default_stream();
    ReadableStreamDefaultReader::new(&mut s, 3).unwrap();
    let mut effects = Vec::new();
    ReadableStreamDefaultReader::read(&mut s, &mut c, 3, 100, Err(Reason::Undefined), &mut effects).unwrap();
    effects.clear();
    release_lock(&mut s, &mut c, 3, &mut effects);
    assert!(!s.locked());
    assert_eq!(
        effects,
        vec![
            ReadableEffect::RejectClosed {
                reader: 3,
                reason: Reason::Error(StreamError::ReaderReleasedClosed),
            },
            ReadableEffect::ReadError { request: 100, reason: Reason::Error(StreamError::ReaderReleased) },
        ]
    );
    // A released reader can neither read nor cancel, and a new one can lock.
    assert_eq!(
        ReadableStreamDefaultReader::read(&mut s, &mut c, 3, 101, Err(Reason::Undefined), &mut effects),
        Err(StreamError::ReadReleasedReader)
    );
    assert_eq!(
        reader_cancel(&mut s, &mut c, 3, Reason::Undefined, &mut effects),
        Err(StreamError::CancelReleasedReader)
    );
    assert!(ReadableStreamDefaultReader::new(&mut s, 4).is_ok());
}

#[test]
fn release_of_a_closed_stream_replaces_the_closed_promise() {
    let (mut s, mut c) = default_stream();
    let mut effects = Vec::new();
    default_ctl(&mut c).close(&mut s, &mut effects).unwrap();
    let r = ReadableStreamDefaultReader::new(&mut s, 3).unwrap();
    assert_eq!(r.generic.closed_promise, ClosedPromise::Resolved);
    effects.clear();
    release_lock(&mut s, &mut c, 3, &mut effects);
    assert_eq!(
        effects,
        vec![ReadableEffect::ReplaceClosedRejected {
            reader: 3,
            reason: Reason::Error(StreamError::ReaderReleasedClosed),
        }]
    );
}

#[test]
fn byte_stream_constructor_checks() {
    assert!(matches!(
        ReadableStream::new_byte_stream(true, Ok(0), None),
        Err(StreamError::ByteStrategyWithSize)
    ));
    assert!(matches!(
        ReadableStream::new_byte_stream(false, Err(StreamError::InvalidHighWaterMark), Some(0)),
        Err(StreamError::InvalidHighWaterMark)
    ));
    assert!(matches!(
        ReadableStream::new_byte_stream(false, Ok(0), Some(0)),
        Err(StreamError::AutoAllocateZero)
    ));
    assert!(StreamError::InvalidHighWaterMark.range_error());
    assert!(!StreamError::AutoAllocateZero.range_error());
}

#[test]
fn byte_desired_size_is_hwm_less_queued_bytes() {
    let (mut s, mut c) = byte_stream(4, None);
    let mut effects = Vec::new();
    let b = byte_ctl(&mut c);
    assert_eq!(b.readable_byte_stream_controller_get_desired_size(&s), Some(4));
    let chunk = ArrayBufferView { buffer: 1, byte_offset: 0, byte_length: 6, buffer_byte_length: 6, view_type: ViewType::Uint8Array };
    b.enqueue(&mut s, chunk, false, false, 50, &mut effects).unwrap();
    assert_eq!(b.readable_byte_stream_controller_get_desired_size(&s), Some(-2));
    assert_eq!(effects, vec![ReadableEffect::TransferBuffer { buffer: 1 }]);
}

#[test]
fn byte_enqueue_checks() {
    let (mut s, mut c) = byte_stream(0, None);
    let mut effects = Vec::new();
    let b = byte_ctl(&mut c);
    let empty = ArrayBufferView { buffer: 1, byte_offset: 0, byte_length: 0, buffer_byte_length: 4, view_type: ViewType::Uint8Array };
    assert_eq!(b.enqueue(&mut s, empty, false, false, 50, &mut effects), Err(Reason::Error(StreamError::ChunkZeroLength)));
    let chunk = ArrayBufferView { buffer: 1, byte_offset: 0, byte_length: 2, buffer_byte_length: 4, view_type: ViewType::Uint8Array };
    assert_eq!(b.enqueue(&mut s, chunk, true, false, 50, &mut effects), Err(Reason::Error(StreamError::ChunkDetached)));
    let no_buffer = ArrayBufferView { buffer_byte_length: 0, ..chunk };
    assert_eq!(
        b.enqueue(&mut s, no_buffer, false, false, 50, &mut effects),
        Err(Reason::Error(StreamError::ChunkBufferZeroLength))
    );
    b.close(&mut s, &mut effects).unwrap();
    assert_eq!(b.close(&mut s, &mut effects), Err(Reason::Error(StreamError::CloseNotReadable)));
    assert_eq!(
        b.enqueue(&mut s, chunk, false, false, 50, &mut effects),
        Err(Reason::Error(StreamError::EnqueueNotReadable))
    );
}

#[test]
fn byte_close_with_queued_bytes_waits_for_the_drain() {
    let (mut s, mut c) = byte_stream(0, None);
    let mut effects = Vec::new();
    let chunk = ArrayBufferView { buffer: 1, byte_offset: 0, byte_length: 2, buffer_byte_length: 2, view_type: ViewType::Uint8Array };
    byte_ctl(&mut c).enqueue(&mut s, chunk, false, false, 50, &mut effects).unwrap();
    byte_ctl(&mut c).close(&mut s, &mut effects).unwrap();
    assert!(byte_ctl(&mut c).close_requested);
    assert_eq!(s.state, ReadableStreamState::Readable);
    assert_eq!(byte_ctl(&mut c).close(&mut s, &mut effects), Err(Reason::Error(StreamError::CloseCalledTwice)));
    ReadableStreamDefaultReader::new(&mut s, 3).unwrap();
    effects.clear();
    ReadableStreamDefaultReader::read(&mut s, &mut c, 3, 100, Err(Reason::Undefined), &mut effects).unwrap();
    assert_eq!(s.state, ReadableStreamState::Closed);
    assert_eq!(
        effects,
        vec![
            ReadableEffect::ClearAlgorithms,
            ReadableEffect::ResolveClosed { reader: 3 },
            ReadableEffect::ReadChunk {
                request: 100,
                chunk: Chunk::View { buffer: 1, byte_offset: 0, length: 2, view: ViewType::Uint8Array },
            },
        ]
    );
}

#[test]
fn byte_enqueue_answers_a_waiting_default_read() {
    let (mut s, mut c) = byte_stream(0, None);
    ReadableStreamDefaultReader::new(&mut s, 3).unwrap();
    let mut effects = Vec::new();
    ReadableStreamDefaultReader::read(&mut s, &mut c, 3, 100, Err(Reason::Undefined), &mut effects).unwrap();
    assert_eq!(s.read_requests, vec![100]);
    effects.clear();
    let chunk = ArrayBufferView { buffer: 1, byte_offset: 2, byte_length: 3, buffer_byte_length: 8, view_type: ViewType::Uint8Array };
    byte_ctl(&mut c).enqueue(&mut s, chunk, false, false, 50, &mut effects).unwrap();
    assert!(s.read_requests.is_empty());
    assert_eq!(
        effects,
        vec![
            ReadableEffect::TransferBuffer { buffer: 1 },
            ReadableEffect::ReadChunk {
                request: 100,
                chunk: Chunk::View { buffer: 1, byte_offset: 2, length: 3, view: ViewType::Uint8Array },
            },
        ]
    );
}

#[test]
fn auto_allocated_read_is_filled_by_enqueue() {
    let (mut s, mut c) = byte_stream(0, Some(4));
    ReadableStreamDefaultReader::new(&mut s, 3).unwrap();
    assert_eq!(byte_ctl(&mut c).pull_steps_buffer_size(), Some(4));
    let mut effects = Vec::new();
    ReadableStreamDefaultReader::read(&mut s, &mut c, 3, 100, Ok(70), &mut effects).unwrap();
    assert_eq!(byte_ctl(&mut c).pending_pull_intos.len(), 1);
    effects.clear();
    let chunk = ArrayBufferView { buffer: 1, byte_offset: 0, byte_length: 2, buffer_byte_length: 2, view_type: ViewType::Uint8Array };
    byte_ctl(&mut c).enqueue(&mut s, chunk, false, false, 50, &mut effects).unwrap();
    assert!(byte_ctl(&mut c).pending_pull_intos.is_empty());
    assert_eq!(
        effects,
        vec![
            ReadableEffect::TransferBuffer { buffer: 1 },
            ReadableEffect::TransferBuffer { buffer: 70 },
            ReadableEffect::ReadChunk {
                request: 100,
                chunk: Chunk::View { buffer: 1, byte_offset: 0, length: 2, view: ViewType::Uint8Array },
            },
        ]
    );
}

#[test]
fn failed_allocation_errors_the_read() {
    let (mut s, mut c) = byte_stream(0, Some(4));
    ReadableStreamDefaultReader::new(&mut s, 3).unwrap();
    let mut effects = Vec::new();
    ReadableStreamDefaultReader::read(&mut s, &mut c, 3, 100, Err(Reason::Value(6)), &mut effects).unwrap();
    assert_eq!(effects, vec![ReadableEffect::ReadError { request: 100, reason: Reason::Value(6) }]);
    assert!(s.read_requests.is_empty());
}

fn u16_view(buffer: u64, byte_length: usize) -> ArrayBufferView {
    ArrayBufferView { buffer, byte_offset: 0, byte_length, buffer_byte_length: byte_length, view_type: ViewType::Uint16Array }
}

#[test]
fn byob_read_validation() {
    let (mut s, _c) = byte_stream(0, None);
    ReadableStreamBYOBReader::new(&mut s, 3).unwrap();
    let ok = u16_view(1, 8);
    assert_eq!(ReadableStreamBYOBReader::validate_read(&s, 3, ok, false, 1), Ok(()));
    assert_eq!(
        ReadableStreamBYOBReader::validate_read(&s, 3, u16_view(1, 0), false, 1),
        Err(StreamError::ViewZeroLength)
    );
    let no_buffer = ArrayBufferView { buffer_byte_length: 0, ..ok };
    assert_eq!(ReadableStreamBYOBReader::validate_read(&s, 3, no_buffer, false, 1), Err(StreamError::ViewBufferZeroLength));
    assert_eq!(ReadableStreamBYOBReader::validate_read(&s, 3, ok, true, 1), Err(StreamError::ViewDetached));
    assert_eq!(ReadableStreamBYOBReader::validate_read(&s, 3, ok, false, 0), Err(StreamError::MinZero));
    assert_eq!(ReadableStreamBYOBReader::validate_read(&s, 3, ok, false, 5), Err(StreamError::MinExceedsLength));
    let data_view = ArrayBufferView { view_type: ViewType::DataView, ..ok };
    assert_eq!(ReadableStreamBYOBReader::validate_read(&s, 3, data_view, false, 8), Ok(()));
    assert_eq!(
        ReadableStreamBYOBReader::validate_read(&s, 3, data_view, false, 9),
        Err(StreamError::MinExceedsByteLength)
    );
    assert_eq!(ReadableStreamBYOBReader::validate_read(&s, 4, ok, false, 1), Err(StreamError::ReadReleasedByobReader));
    // The view checks come before the released-reader check.
    assert_eq!(ReadableStreamBYOBReader::validate_read(&s, 4, ok, false, 0), Err(StreamError::MinZero));
    assert_eq!(ReadableStreamBYOBReader::validate_view(ok, false, 1), Ok(()));
    assert_eq!(ReadableStreamBYOBReader::validate_view(ok, true, 1), Err(StreamError::ViewDetached));
    assert!(StreamError::MinExceedsLength.range_error());
}

#[test]
fn byob_read_with_queued_bytes_completes_at_once() {
    let (mut s, mut c) = byte_stream(0, None);
    let mut effects = Vec::new();
    let chunk = ArrayBufferView { buffer: 1, byte_offset: 0, byte_length: 5, buffer_byte_length: 5, view_type: ViewType::Uint8Array };
    byte_ctl(&mut c).enqueue(&mut s, chunk, false, false, 50, &mut effects).unwrap();
    ReadableStreamBYOBReader::new(&mut s, 3).unwrap();
    effects.clear();
    assert!(ReadableStreamBYOBReader::read_transfers_buffer(&s));
    ReadableStreamBYOBReader::readable_stream_byob_reader_read(
        &mut s, byte_ctl(&mut c), 3, u16_view(9, 8), 1, 200, Ok(90), &mut effects,
    );
    assert!(s.disturbed);
    assert_eq!(byte_ctl(&mut c).queue_total_size, 1);
    assert_eq!(
        effects,
        vec![
            ReadableEffect::CopyBytes { to: 90, to_index: 0, from: 1, from_index: 0, count: 4 },
            ReadableEffect::TransferBuffer { buffer: 90 },
            ReadableEffect::ReadChunk {
                request: 200,
                chunk: Chunk::View { buffer: 90, byte_offset: 0, length: 2, view: ViewType::Uint16Array },
            },
        ]
    );
}

#[test]
fn byob_read_waits_then_enqueue_commits_it() {
    let (mut s, mut c) = byte_stream(0, None);
    ReadableStreamBYOBReader::new(&mut s, 3).unwrap();
    let mut effects = Vec::new();
    ReadableStreamBYOBReader::readable_stream_byob_reader_read(
        &mut s, byte_ctl(&mut c), 3, u16_view(9, 4), 2, 200, Ok(90), &mut effects,
    );
    assert_eq!(s.read_requests, vec![200]);
    assert_eq!(byte_ctl(&mut c).pending_pull_intos.len(), 1);
    effects.clear();
    let chunk = ArrayBufferView { buffer: 1, byte_offset: 0, byte_length: 6, buffer_byte_length: 6, view_type: ViewType::Uint8Array };
    byte_ctl(&mut c).enqueue(&mut s, chunk, false, false, 50, &mut effects).unwrap();
    assert!(s.read_requests.is_empty());
    assert_eq!(byte_ctl(&mut c).queue_total_size, 2);
    assert_eq!(
        effects,
        vec![
            ReadableEffect::TransferBuffer { buffer: 1 },
            ReadableEffect::TransferBuffer { buffer: 90 },
            ReadableEffect::CopyBytes { to: 90, to_index: 0, from: 1, from_index: 0, count: 4 },
            ReadableEffect::TransferBuffer { buffer: 90 },
            ReadableEffect::ReadChunk {
                request: 200,
                chunk: Chunk::View { buffer: 90, byte_offset: 0, length: 2, view: ViewType::Uint16Array },
            },
        ]
    );
}

#[test]
fn byob_read_of_a_closed_stream_gets_an_empty_view() {
    let (mut s, mut c) = byte_stream(0, None);
    let mut effects = Vec::new();
    byte_ctl(&mut c).close(&mut s, &mut effects).unwrap();
    ReadableStreamBYOBReader::new(&mut s, 3).unwrap();
    effects.clear();
    ReadableStreamBYOBReader::readable_stream_byob_reader_read(
        &mut s, byte_ctl(&mut c), 3, u16_view(9, 4), 1, 200, Ok(90), &mut effects,
    );
    assert_eq!(
        effects,
        vec![ReadableEffect::ReadClose {
            request: 200,
            closing_chunk: Some(Chunk::View { buffer: 90, byte_offset: 0, length: 0, view: ViewType::Uint16Array }),
        }]
    );
}

#[test]
fn close_with_a_partial_element_errors_the_stream() {
    let (mut s, mut c) = byte_stream(0, None);
    ReadableStreamBYOBReader::new(&mut s, 3).unwrap();
    let mut effects = Vec::new();
    ReadableStreamBYOBReader::readable_stream_byob_reader_read(
        &mut s, byte_ctl(&mut c), 3, u16_view(9, 4), 1, 200, Ok(90), &mut effects,
    );
    let chunk = ArrayBufferView { buffer: 1, byte_offset: 0, byte_length: 1, buffer_byte_length: 1, view_type: ViewType::Uint8Array };
    byte_ctl(&mut c).enqueue(&mut s, chunk, false, false, 50, &mut effects).unwrap();
    assert_eq!(byte_ctl(&mut c).pending_pull_intos[0].bytes_filled, 1);
    effects.clear();
    let r = byte_ctl(&mut c).close(&mut s, &mut effects);
    assert_eq!(r, Err(Reason::Error(StreamError::InsufficientBytes)));
    assert_eq!(s.state, ReadableStreamState::Errored);
    assert_eq!(
        effects.last(),
        Some(&ReadableEffect::ReadError { request: 200, reason: Reason::Error(StreamError::InsufficientBytes) })
    );
}

#[test]
fn released_byob_descriptor_hands_its_bytes_to_the_queue() {
    let (mut s, mut c) = byte_stream(0, None);
    ReadableStreamBYOBReader::new(&mut s, 3).unwrap();
    let mut effects = Vec::new();
    ReadableStreamBYOBReader::readable_stream_byob_reader_read(
        &mut s, byte_ctl(&mut c), 3, u16_view(9, 4), 2, 200, Ok(90), &mut effects,
    );
    let one = ArrayBufferView { buffer: 1, byte_offset: 0, byte_length: 1, buffer_byte_length: 1, view_type: ViewType::Uint8Array };
    byte_ctl(&mut c).enqueue(&mut s, one, false, false, 50, &mut effects).unwrap();
    release_lock(&mut s, &mut c, 3, &mut effects);
    assert_eq!(byte_ctl(&mut c).pending_pull_intos[0].reader_type, PullIntoDescriptorReaderType::NoReader);
    effects.clear();
    let two = ArrayBufferView { buffer: 2, byte_offset: 0, byte_length: 2, buffer_byte_length: 2, view_type: ViewType::Uint8Array };
    byte_ctl(&mut c).enqueue(&mut s, two, false, false, 51, &mut effects).unwrap();
    let b = byte_ctl(&mut c);
    assert!(b.pending_pull_intos.is_empty());
    assert_eq!(b.queue, vec![entry(51, 0, 1), entry(2, 0, 2)]);
    assert_eq!(b.queue_total_size, 3);
    assert_eq!(
        effects,
        vec![
            ReadableEffect::TransferBuffer { buffer: 2 },
            ReadableEffect::TransferBuffer { buffer: 90 },
            ReadableEffect::CloneBuffer { from: 90, into: 51 },
        ]
    );
}

#[test]
fn tee_of_a_locked_stream_is_refused_and_tees_by_source_kind() {
    let (mut s, _) = default_stream();
    match s.tee(1) {
        Ok(t) => {
            match t.state {
                ReadableStreamTeeState::Default(d) => assert!(!d.clone_for_branch_2),
                _ => panic!("expected a default tee"),
            }
            assert!(!t.branch_1.byte_source && !t.branch_2.byte_source);
            assert!(matches!(t.controller_1, ReadableStreamController::ReadableStreamDefaultController(_)));
        },
        Err(_) => panic!("expected a tee"),
    }
    assert!(s.tee(2).is_err());
    let (mut b, _) = byte_stream(0, None);
    assert!(matches!(b.tee(1).map(|t| t.state), Ok(ReadableStreamTeeState::Byte(_))));
}

#[test]
fn byte_tee_makes_two_byte_branches() {
    let (mut s, _) = byte_stream(16, Some(8));
    let mut t = match s.tee(1) {
        Ok(t) => t,
        Err(_) => panic!("expected a tee"),
    };
    assert!(s.locked());
    assert_eq!(t.reader.generic.id, 1);
    for (branch, controller) in [(&mut t.branch_1, &t.controller_1), (&mut t.branch_2, &t.controller_2)] {
        assert_eq!(branch.state, ReadableStreamState::Readable);
        assert!(branch.byte_source && !branch.locked());
        match controller {
            ReadableStreamController::ReadableStreamByteController(c) => {
                assert_eq!(c.strategy_hwm, 0);
                assert_eq!(c.auto_allocate_chunk_size, None);
                assert!(!c.started && c.queue.is_empty() && c.pending_pull_intos.is_empty());
            },
            _ => panic!("expected a byte controller"),
        }
        assert!(ReadableStreamBYOBReader::new(branch, 5).is_ok());
    }
}

#[test]
fn switching_the_tee_reader_releases_the_old_one() {
    let (mut s, mut c) = byte_stream(0, None);
    ReadableStreamDefaultReader::new(&mut s, 1).unwrap();
    let mut effects = Vec::new();
    ReadableStreamDefaultReader::read(&mut s, &mut c, 1, 40, Err(Reason::Undefined), &mut effects).unwrap();
    assert_eq!(s.read_requests, vec![40]);
    effects.clear();
    let r = switch_reader(&mut s, &mut c, true, 2, &mut effects);
    match r {
        ReadableStreamReader::ReadableStreamBYOBReader(rd) => {
            assert_eq!(rd.generic.id, 2);
            assert_eq!(rd.generic.closed_promise, ClosedPromise::Pending);
        },
        _ => panic!("expected a BYOB reader"),
    }
    assert_eq!(
        effects,
        vec![
            ReadableEffect::RejectClosed {
                reader: 1,
                reason: Reason::Error(StreamError::ReaderReleasedClosed),
            },
            ReadableEffect::ReadError { request: 40, reason: Reason::Error(StreamError::ReaderReleased) },
        ]
    );
    assert!(s.readable_stream_has_byob_reader());
    assert!(s.read_requests.is_empty());
    assert!(s.disturbed);
}

#[test]
fn waiting_reads_take_queued_chunks_in_order() {
    let (mut s, mut c) = byte_stream(0, None);
    ReadableStreamDefaultReader::new(&mut s, 3).unwrap();
    byte_ctl(&mut c).readable_byte_stream_controller_enqueue_chunk_to_queue(1, 0, 2);
    byte_ctl(&mut c).readable_byte_stream_controller_enqueue_chunk_to_queue(2, 4, 3);
    s.readable_stream_add_read_request(100);
    s.readable_stream_add_read_request(101);
    s.readable_stream_add_read_request(102);
    let mut effects = Vec::new();
    byte_ctl(&mut c).readable_byte_stream_controller_process_read_requests_using_queue(&mut s, &mut effects);
    assert_eq!(
        effects,
        vec![
            ReadableEffect::ReadChunk {
                request: 100,
                chunk: Chunk::View { buffer: 1, byte_offset: 0, length: 2, view: ViewType::Uint8Array },
            },
            ReadableEffect::ReadChunk {
                request: 101,
                chunk: Chunk::View { buffer: 2, byte_offset: 4, length: 3, view: ViewType::Uint8Array },
            },
        ]
    );
    assert_eq!(s.read_requests, vec![102]);
    assert!(byte_ctl(&mut c).queue.is_empty());
    assert_eq!(byte_ctl(&mut c).queue_total_size, 0);
}
