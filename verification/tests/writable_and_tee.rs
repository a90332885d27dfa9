use llrt_stream::byte_controller::ReadableStreamByteController;
use llrt_stream::byte_queue::{PullIntoDescriptor, PullIntoDescriptorReaderType};
use llrt_stream::byte_tee::ReadableByteStreamTee;
use llrt_stream::effect::ViewType;
use llrt_stream::effect::{Reason, StreamError};
use llrt_stream::module::StreamModule;
use llrt_stream::strategy::{extract_size_algorithm, SizeAlgorithm};
use llrt_stream::tee::{ReadableStreamDefaultTee, TeeBranch, TeeEffect, TeePull};
use llrt_stream::writable::{
    AbortOutcome, DesiredSize, PromiseInit, WritableEffect, WritableStream, WritableStreamDefaultWriter,
    WritableStreamState,
};

#[test]
fn module_declares_its_classes() {
    assert_eq!(
        StreamModule::declared_names(),
        vec![
            "ReadableStream",
            "ByteLengthQueuingStrategy",
            "CountQueuingStrategy",
            "ReadableStreamDefaultReader",
            "ReadableByteStreamController",
            "ReadableStreamBYOBRequest",
            "default",
        ]
    );
    assert_eq!(StreamModule::module_name(), "stream/web");
}

#[test]
fn size_algorithm_defaults_to_one() {
    assert_eq!(extract_size_algorithm(None), SizeAlgorithm::AlwaysOne);
    assert_eq!(extract_size_algorithm(Some(5)), SizeAlgorithm::SizeFunction(5));
}

#[test]
fn tee_cancels_the_source_once_both_branches_cancel() {
    let mut t = ReadableStreamDefaultTee::new(false);
    let mut effects = Vec::new();
    t.cancel_1(10, &mut effects);
    assert!(effects.is_empty());
    t.cancel_2(20, &mut effects);
    assert_eq!(effects, vec![TeeEffect::CancelSource { reason: Reason::Pair(10, 20) }]);

    let mut u = ReadableStreamDefaultTee::new(false);
    let mut effects = Vec::new();
    u.cancel_2(20, &mut effects);
    u.cancel_1(10, &mut effects);
    assert_eq!(effects, vec![TeeEffect::CancelSource { reason: Reason::Pair(10, 20) }]);
    assert_eq!(t, u);
}

#[test]
fn tee_reads_once_at_a_time() {
    let mut t = ReadableStreamDefaultTee::new(false);
    let mut effects = Vec::new();
    assert_eq!(t.pull(&mut effects), TeePull::Read);
    assert_eq!(t.pull(&mut effects), TeePull::ReadAgainLater);
    assert_eq!(effects, vec![TeeEffect::ReadSource]);
    effects.clear();
    t.chunk_steps(5, Ok(5), &mut effects);
    assert_eq!(
        effects,
        vec![
            TeeEffect::Enqueue { branch: TeeBranch::Branch1, chunk: 5 },
            TeeEffect::Enqueue { branch: TeeBranch::Branch2, chunk: 5 },
            TeeEffect::FinishChunk,
        ]
    );
    effects.clear();
    t.finish_chunk(&mut effects);
    assert!(effects.is_empty());
    assert!(!t.reading);
}

#[test]
fn tee_clone_failure_errors_both_branches() {
    let mut t = ReadableStreamDefaultTee::new(true);
    let mut effects = Vec::new();
    assert!(t.needs_clone());
    t.chunk_steps(5, Err(Reason::Value(3)), &mut effects);
    assert_eq!(
        effects,
        vec![
            TeeEffect::Error { branch: TeeBranch::Branch1, reason: Reason::Value(3) },
            TeeEffect::Error { branch: TeeBranch::Branch2, reason: Reason::Value(3) },
            TeeEffect::CancelSource { reason: Reason::Value(3) },
        ]
    );
}

#[test]
fn tee_close_closes_open_branches() {
    let mut t = ReadableStreamDefaultTee::new(false);
    let mut effects = Vec::new();
    t.cancel_1(1, &mut effects);
    t.close_steps(&mut effects);
    assert_eq!(
        effects,
        vec![TeeEffect::Close { branch: TeeBranch::Branch2 }, TeeEffect::ResolveCancelPromise]
    );
}

#[test]
fn byte_tee_switches_reader_kind_as_branches_pull() {
    let mut t = ReadableByteStreamTee::new();
    let mut effects = Vec::new();
    t.pull(TeeBranch::Branch1, Some(77), &mut effects);
    assert_eq!(
        effects,
        vec![
            TeeEffect::SwitchToByobReader,
            TeeEffect::ReadSourceInto { branch: TeeBranch::Branch1, view: 77 },
        ]
    );
    t.pull(TeeBranch::Branch2, None, &mut effects);
    assert!(t.read_again_for_branch_2);
    effects.clear();
    t.byob_chunk_steps(TeeBranch::Branch1, 8, Ok(9), &mut effects);
    assert_eq!(
        effects,
        vec![
            TeeEffect::RespondWithNewView { branch: TeeBranch::Branch1, chunk: 8 },
            TeeEffect::Enqueue { branch: TeeBranch::Branch2, chunk: 9 },
            TeeEffect::FinishChunk,
        ]
    );
    effects.clear();
    t.finish_chunk(&mut effects);
    assert!(effects.is_empty());
    t.pull(TeeBranch::Branch2, None, &mut effects);
    assert_eq!(effects, vec![TeeEffect::SwitchToDefaultReader, TeeEffect::ReadSource]);
}

#[test]
fn byte_tee_asks_the_waiting_branch_to_pull_again() {
    let mut t = ReadableByteStreamTee::new();
    let mut effects = Vec::new();
    t.pull(TeeBranch::Branch1, None, &mut effects);
    t.pull(TeeBranch::Branch2, None, &mut effects);
    effects.clear();
    t.default_chunk_steps(4, Ok(5), &mut effects);
    effects.clear();
    // The read-again flags were reset by the chunk steps; a pull during them sets one again.
    t.pull(TeeBranch::Branch2, None, &mut effects);
    t.finish_chunk(&mut effects);
    assert_eq!(effects, vec![TeeEffect::PullBranch { branch: TeeBranch::Branch2 }]);
}

#[test]
fn byte_tee_close_responds_to_pending_reads() {
    let mut t = ReadableByteStreamTee::new();
    let mut effects = Vec::new();
    let mut controller_1 = ReadableStreamByteController::new(0, None);
    controller_1.pending_pull_intos.push(PullIntoDescriptor {
        buffer: 7,
        buffer_byte_length: 4,
        byte_offset: 0,
        byte_length: 4,
        bytes_filled: 0,
        minimum_fill: 1,
        element_size: 1,
        view_type: ViewType::Uint8Array,
        reader_type: PullIntoDescriptorReaderType::Byob,
    });
    let controller_2 = ReadableStreamByteController::new(0, None);
    t.default_close_steps(&controller_1, &controller_2, &mut effects);
    assert_eq!(
        effects,
        vec![
            TeeEffect::Close { branch: TeeBranch::Branch1 },
            TeeEffect::Close { branch: TeeBranch::Branch2 },
            TeeEffect::RespondZero { branch: TeeBranch::Branch1 },
            TeeEffect::ResolveCancelPromise,
        ]
    );
}

#[test]
fn writer_locks_and_its_promises_follow_the_state() {
    let mut s = WritableStream::new();
    let w = WritableStreamDefaultWriter::new(&mut s, 1).unwrap();
    assert_eq!(w.ready_promise, PromiseInit::Resolved);
    assert_eq!(w.closed_promise, PromiseInit::Pending);
    assert_eq!(WritableStreamDefaultWriter::new(&mut s, 2), Err(StreamError::WritableLocked));
    let mut effects = Vec::new();
    assert_eq!(s.abort(Reason::Undefined, 9, &mut effects), Err(StreamError::AbortLockedStream));
    assert_eq!(s.close(9, &mut effects), Err(StreamError::CloseLockedStream));
    w.release_lock(&mut s, &mut effects);
    assert!(!s.is_writable_stream_locked());
    assert_eq!(
        effects,
        vec![
            WritableEffect::EnsureReadyRejected { writer: 1, reason: Reason::Error(StreamError::WriterReleased) },
            WritableEffect::EnsureClosedRejected { writer: 1, reason: Reason::Error(StreamError::WriterReleased) },
        ]
    );
    assert_eq!(w.desired_size(&s), Err(StreamError::DesiredSizeReleasedWriter));
}

#[test]
fn backpressure_makes_a_new_writer_wait() {
    let mut s = WritableStream::new();
    s.backpressure = true;
    let w = WritableStreamDefaultWriter::new(&mut s, 1).unwrap();
    assert_eq!(w.ready_promise, PromiseInit::Pending);
    let mut effects = Vec::new();
    assert_eq!(w.close(&mut s, 5, &mut effects), Ok(5));
    assert_eq!(
        effects,
        vec![WritableEffect::ResolveReady { writer: 1 }, WritableEffect::ControllerClose]
    );
    assert_eq!(w.close(&mut s, 6, &mut effects), Err(StreamError::CloseClosingStream));
}

#[test]
fn abort_of_a_started_idle_stream_errors_it_at_once() {
    let mut s = WritableStream::new();
    s.controller_started = true;
    let mut effects = Vec::new();
    assert!(s.abort_signals());
    let r = s.abort(Reason::Value(3), 40, &mut effects).unwrap();
    assert_eq!(r, AbortOutcome::Pending(40));
    assert_eq!(s.state, WritableStreamState::Errored);
    assert_eq!(
        effects,
        vec![
            WritableEffect::ControllerErrorSteps,
            WritableEffect::ControllerAbortSteps { reason: Reason::Value(3), promise: 40 },
        ]
    );
    effects.clear();
    s.abort_steps_settled(40, Ok(()), &mut effects);
    assert_eq!(effects, vec![WritableEffect::ResolvePromise { promise: 40 }]);
    assert_eq!(s.abort(Reason::Value(4), 41, &mut effects), Ok(AbortOutcome::Resolved));
    assert!(!s.abort_signals());
}

#[test]
fn abort_while_in_flight_waits_and_is_shared() {
    let mut s = WritableStream::new();
    s.controller_started = true;
    s.in_flight_write_request = Some(1);
    let mut effects = Vec::new();
    assert_eq!(s.abort(Reason::Value(3), 40, &mut effects), Ok(AbortOutcome::Pending(40)));
    assert_eq!(s.state, WritableStreamState::Erroring);
    assert_eq!(s.abort(Reason::Value(5), 41, &mut effects), Ok(AbortOutcome::Pending(40)));
    assert!(effects.is_empty());
}

#[test]
fn close_of_an_errored_stream_is_refused() {
    let mut s = WritableStream::new();
    s.controller_started = true;
    let mut effects = Vec::new();
    s.abort(Reason::Value(3), 40, &mut effects).unwrap();
    assert_eq!(s.close(9, &mut effects), Err(StreamError::CloseNotWritable));
    let w = WritableStreamDefaultWriter::new(&mut s, 2).unwrap();
    assert_eq!(w.ready_promise, PromiseInit::Rejected(Reason::Value(3)));
    assert_eq!(w.closed_promise, PromiseInit::Rejected(Reason::Value(3)));
    assert_eq!(w.desired_size(&s), Ok(DesiredSize::Null));
}

#[test]
fn writes_are_refused_on_closing_or_errored_streams() {
    let mut s = WritableStream::new();
    let w = WritableStreamDefaultWriter::new(&mut s, 1).unwrap();
    let mut effects = Vec::new();
    assert_eq!(w.writable_stream_default_writer_write(&mut s, 7, Ok(8), 30, &mut effects), Ok(30));
    assert_eq!(s.write_requests, vec![30]);
    assert_eq!(effects, vec![WritableEffect::ControllerWrite { chunk: 7, size: Some(8) }]);
    w.close(&mut s, 31, &mut effects).unwrap();
    assert_eq!(
        w.writable_stream_default_writer_write(&mut s, 7, Ok(8), 32, &mut effects),
        Err(Reason::Error(StreamError::WriteClosing))
    );
    let other = WritableStreamDefaultWriter { id: 9, ..w };
    assert_eq!(
        other.writable_stream_default_writer_write(&mut s, 7, Ok(8), 33, &mut effects),
        Err(Reason::Error(StreamError::WriteToReleasedWriter))
    );
}

#[test]
fn a_failed_size_errors_a_writable_stream() {
    let mut s = WritableStream::new();
    let w = WritableStreamDefaultWriter::new(&mut s, 1).unwrap();
    let mut effects = Vec::new();
    let r = w.writable_stream_default_writer_write(&mut s, 7, Err(Reason::Value(2)), 30, &mut effects);
    assert_eq!(r, Err(Reason::Value(2)));
    assert_eq!(s.state, WritableStreamState::Erroring);
    assert_eq!(
        effects,
        vec![
            WritableEffect::ControllerClearAlgorithms,
            WritableEffect::EnsureReadyRejected { writer: 1, reason: Reason::Value(2) },
        ]
    );
}

#[test]
fn sink_type_is_refused() {
    assert_eq!(WritableStream::check_sink_type(true), Err(StreamError::InvalidSinkType));
    assert_eq!(WritableStream::check_sink_type(false), Ok(()));
    assert!(StreamError::InvalidSinkType.range_error());
}
