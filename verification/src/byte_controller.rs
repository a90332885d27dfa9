//! The byte controller of a readable stream: a queue of byte chunks, the
//! pending reads into caller buffers, and the flags that drive pulling.
use vstd::prelude::*;
use crate::effect::{Chunk, Reason, ReadableEffect, StreamError, ViewType, spec_element_size};
use crate::byte_queue::{
    ReadableByteStreamQueueEntry, PullIntoDescriptor, PullIntoDescriptorReaderType, queue_wf, queue_bytes,
    lemma_queue_bytes_push, lemma_consume_queue, lemma_fill_not_ready, fill_pull_into_descriptor_from_queue,
    convert_pull_into_descriptor, fill_amount, filled_by, consume_queue, copy_effects, spec_filled_view,
};
use crate::readable::{ReadableStream, ReadableStreamView, ReadableStreamState, ReaderKind};

verus! {

/// The state of a byte controller.
pub struct ReadableStreamByteController {
    pub auto_allocate_chunk_size: Option<usize>,
    pub byob_request: Option<u64>,
    pub algorithms_cleared: bool,
    pub close_requested: bool,
    pub pull_again: bool,
    pub pulling: bool,
    pub started: bool,
    pub pending_pull_intos: Vec<PullIntoDescriptor>,
    pub queue: Vec<ReadableByteStreamQueueEntry>,
    pub queue_total_size: usize,
    pub strategy_hwm: usize,
}

/// Where serving read requests from a byte queue stands: the queue left and
/// its bytes, the requests still waiting, the pulling flags, whether the
/// stream was closed, and the steps handed to the host so far.
pub struct ReadServing {
    pub queue: Seq<ReadableByteStreamQueueEntry>,
    pub total: int,
    pub requests: Seq<u64>,
    pub pulling: bool,
    pub pull_again: bool,
    pub closed: bool,
    pub effects: Seq<ReadableEffect>,
}

/// Where filling pending descriptors from a byte queue stands: the queue left
/// and its bytes, the descriptors still pending, the stream, and the steps
/// handed to the host so far.
pub struct PullIntoServing {
    pub queue: Seq<ReadableByteStreamQueueEntry>,
    pub total: int,
    pub pending: Seq<PullIntoDescriptor>,
    pub stream: ReadableStreamView,
    pub effects: Seq<ReadableEffect>,
}

/// The parts of a byte controller and of its stream that an enqueue changes,
/// with the steps handed to the host so far.
#[verifier::ext_equal]
pub struct ByteState {
    pub queue: Seq<ReadableByteStreamQueueEntry>,
    pub total: int,
    pub pending: Seq<PullIntoDescriptor>,
    pub byob_request: Option<u64>,
    pub algorithms_cleared: bool,
    pub pulling: bool,
    pub pull_again: bool,
    pub stream: ReadableStreamView,
    pub effects: Seq<ReadableEffect>,
}

/// The queue entry of a whole enqueued chunk.
pub open spec fn chunk_entry(chunk: ArrayBufferView) -> ReadableByteStreamQueueEntry {
    ReadableByteStreamQueueEntry { buffer: chunk.buffer, byte_offset: chunk.byte_offset, byte_length: chunk.byte_length }
}

/// Every descriptor of a list is pending and well formed.
pub open spec fn pending_wf(ds: Seq<PullIntoDescriptor>) -> bool {
    forall|i: int| 0 <= i < ds.len() ==> (#[trigger] ds[i]).pending_wf()
}

impl ReadableStreamByteController {
    /// The queue total is the number of queued bytes, queued chunks are well
    /// formed, and every pending descriptor still waits for bytes.
    pub open spec fn wf(self) -> bool {
        &&& queue_wf(self.queue@)
        &&& self.queue_total_size == queue_bytes(self.queue@)
        &&& pending_wf(self.pending_pull_intos@)
        &&& self.auto_allocate_chunk_size != Some(0usize)
    }

    /// The steps ReadableByteStreamControllerInvalidateBYOBRequest hands to the host.
    pub open spec fn invalidate_effects(self) -> Seq<ReadableEffect> {
        match self.byob_request {
            Option::None => seq![],
            Option::Some(r) => seq![ReadableEffect::InvalidateByobRequest { request: r }],
        }
    }

    /// ReadableByteStreamControllerInvalidateBYOBRequest.
    pub fn invalidate_byob_request(&mut self, effects: &mut Vec<ReadableEffect>)
        ensures
            final(self).byob_request is None,
            final(effects)@ == old(effects)@ + old(self).invalidate_effects(),
            final(self).queue@ == old(self).queue@,
            final(self).queue_total_size == old(self).queue_total_size,
            final(self).pending_pull_intos@ == old(self).pending_pull_intos@,
            final(self).algorithms_cleared == old(self).algorithms_cleared,
            final(self).close_requested == old(self).close_requested,
            final(self).pull_again == old(self).pull_again,
            final(self).pulling == old(self).pulling,
            final(self).started == old(self).started,
            final(self).strategy_hwm == old(self).strategy_hwm,
            final(self).auto_allocate_chunk_size == old(self).auto_allocate_chunk_size,
    {
        match self.byob_request {
            Option::None => {
                assert(effects@ =~= old(effects)@ + old(self).invalidate_effects());
            },
            Option::Some(r) => {
                effects.push(ReadableEffect::InvalidateByobRequest { request: r });
                assert(effects@ =~= old(effects)@ + old(self).invalidate_effects());
                self.byob_request = Option::None;
            },
        }
    }

    /// The cancel steps of a byte controller: pending pull-intos are cleared,
    /// the queue emptied, the cancel algorithm performed with `reason` and the
    /// algorithms dropped.
    pub fn cancel_steps(&mut self, reason: Reason, effects: &mut Vec<ReadableEffect>)
        requires
            old(self).wf(),
        ensures
            final(self).queue@.len() == 0,
            final(self).queue_total_size == 0,
            final(self).pending_pull_intos@.len() == 0,
            final(self).byob_request is None,
            final(self).algorithms_cleared,
            final(self).wf(),
            final(self).close_requested == old(self).close_requested,
            final(self).started == old(self).started,
            final(self).pulling == old(self).pulling,
            final(self).pull_again == old(self).pull_again,
            final(self).strategy_hwm == old(self).strategy_hwm,
            final(self).auto_allocate_chunk_size == old(self).auto_allocate_chunk_size,
            final(effects)@ == old(effects)@ + old(self).invalidate_effects() + seq![
                ReadableEffect::CallCancel { reason },
                ReadableEffect::ClearAlgorithms,
            ],
    {
        self.invalidate_byob_request(effects);
        self.pending_pull_intos.clear();
        self.queue.clear();
        self.queue_total_size = 0;
        effects.push(ReadableEffect::CallCancel { reason });
        self.algorithms_cleared = true;
        effects.push(ReadableEffect::ClearAlgorithms);
        assert(queue_bytes(self.queue@) == 0);
    }
}


/// A view onto a buffer, as handed to `enqueue` or to a BYOB read.
#[derive(Clone, Copy, PartialEq, Eq, Structural, Debug)]
pub struct ArrayBufferView {
    pub buffer: u64,
    pub byte_offset: usize,
    pub byte_length: usize,
    pub buffer_byte_length: usize,
    pub view_type: ViewType,
}

/// Being a prefix is transitive.
pub proof fn lemma_prefix_trans(a: Seq<ReadableEffect>, b: Seq<ReadableEffect>, c: Seq<ReadableEffect>)
    requires
        a.is_prefix_of(b),
        b.is_prefix_of(c),
    ensures
        a.is_prefix_of(c),
{
    assert forall|i: int| 0 <= i < a.len() implies a[i] == c.subrange(0, a.len() as int)[i] by {
        assert(a[i] == b.subrange(0, a.len() as int)[i]);
        assert(b[i] == c.subrange(0, b.len() as int)[i]);
    }
    assert(a =~= c.subrange(0, a.len() as int));
}

/// The chunk steps of `request` given a Uint8Array over a queue entry.
pub open spec fn entry_read(request: u64, e: ReadableByteStreamQueueEntry) -> ReadableEffect {
    ReadableEffect::ReadChunk { request, chunk: entry_view(e) }
}

/// A Uint8Array over the bytes of a queue entry.
pub open spec fn entry_view(e: ReadableByteStreamQueueEntry) -> Chunk {
    Chunk::View {
        buffer: e.buffer,
        byte_offset: e.byte_offset,
        length: e.byte_length,
        view: ViewType::Uint8Array,
    }
}

impl ReadableStreamByteController {
    /// A controller as set up: nothing queued or pending, no BYOB request,
    /// its algorithms kept, and no close, pull or start yet.
    pub open spec fn is_fresh(self) -> bool {
        &&& self.byob_request is None
        &&& !self.algorithms_cleared && !self.close_requested && !self.pull_again && !self.pulling && !self.started
        &&& self.pending_pull_intos@.len() == 0
        &&& self.queue@.len() == 0
        &&& self.queue_total_size == 0
    }

    /// The controller right after SetUpReadableByteStreamController.
    pub fn new(high_water_mark: usize, auto_allocate_chunk_size: Option<usize>) -> (c: Self)
        ensures
            auto_allocate_chunk_size != Some(0usize) ==> c.wf(),
            c.strategy_hwm == high_water_mark,
            c.auto_allocate_chunk_size == auto_allocate_chunk_size,
            c.is_fresh(),
    {
        let c = ReadableStreamByteController {
            auto_allocate_chunk_size,
            byob_request: Option::None,
            algorithms_cleared: false,
            close_requested: false,
            pull_again: false,
            pulling: false,
            started: false,
            pending_pull_intos: Vec::new(),
            queue: Vec::new(),
            queue_total_size: 0,
            strategy_hwm: high_water_mark,
        };
        assert(queue_bytes(c.queue@) == 0);
        c
    }

    /// SetUpReadableByteStreamControllerFromUnderlyingSource, once the host has
    /// read the source: an `autoAllocateChunkSize` of 0 is refused.
    pub fn set_up_readable_byte_stream_controller_from_underlying_source(
        high_water_mark: usize,
        auto_allocate_chunk_size: Option<usize>,
    ) -> (r: Result<Self, StreamError>)
        ensures
            auto_allocate_chunk_size == Some(0usize) <==> r is Err,
            r matches Err(e) ==> e == StreamError::AutoAllocateZero,
            r matches Ok(c) ==> c.wf() && c.strategy_hwm == high_water_mark
                && c.auto_allocate_chunk_size == auto_allocate_chunk_size && c.is_fresh(),
    {
        if let Option::Some(n) = auto_allocate_chunk_size {
            if n == 0 {
                return Err(StreamError::AutoAllocateZero);
            }
        }
        Ok(Self::new(high_water_mark, auto_allocate_chunk_size))
    }

    /// ReadableByteStreamControllerGetDesiredSize: null for an errored stream,
    /// 0 for a closed one, else the high water mark less the queued bytes.
    pub fn readable_byte_stream_controller_get_desired_size(&self, stream: &ReadableStream) -> (r: Option<i128>)
        ensures
            stream.state == ReadableStreamState::Errored ==> r is None,
            stream.state == ReadableStreamState::Closed ==> r == Some(0i128),
            stream.state == ReadableStreamState::Readable ==> (r matches Some(d) && d
                == self.strategy_hwm - self.queue_total_size),
    {
        match stream.state {
            ReadableStreamState::Errored => Option::None,
            ReadableStreamState::Closed => Option::Some(0),
            ReadableStreamState::Readable => Option::Some(
                self.strategy_hwm as i128 - self.queue_total_size as i128,
            ),
        }
    }

    /// ReadableByteStreamControllerShouldCallPull, with `total` bytes queued.
    pub open spec fn should_pull_at(self, stream: ReadableStreamView, total: int) -> bool {
        &&& stream.state == ReadableStreamState::Readable
        &&& !self.close_requested
        &&& self.started
        &&& ((stream.reader is Some && stream.read_requests.len() > 0) || self.strategy_hwm > total)
    }

    /// ReadableByteStreamControllerShouldCallPull.
    pub open spec fn spec_should_call_pull(self, stream: ReadableStreamView) -> bool {
        self.should_pull_at(stream, self.queue_total_size as int)
    }

    /// The pulling flags ReadableByteStreamControllerCallPullIfNeeded leaves in
    /// `after`, when `should` tells whether the source should be pulled.
    pub open spec fn flags_after_pull(self, after: Self, should: bool) -> bool {
        &&& !should ==> after.pulling == self.pulling && after.pull_again == self.pull_again
        &&& should && self.pulling ==> after.pulling && after.pull_again
        &&& should && !self.pulling ==> after.pulling && after.pull_again == self.pull_again
    }

    /// The steps ReadableByteStreamControllerCallPullIfNeeded hands to the
    /// host, when `should` tells whether the source should be pulled.
    pub open spec fn pull_effects(self, should: bool) -> Seq<ReadableEffect> {
        if should && !self.pulling {
            seq![ReadableEffect::CallPull]
        } else {
            seq![]
        }
    }

    /// Whether the source should be pulled: the stream is readable, no close
    /// was requested, the controller started, and a reader waits or the queue
    /// is below the high water mark.
    pub fn readable_byte_stream_controller_should_call_pull(&self, stream: &ReadableStream) -> (r: bool)
        ensures
            r == self.spec_should_call_pull(stream@),
    {
        if stream.state != ReadableStreamState::Readable {
            return false;
        }
        if self.close_requested {
            return false;
        }
        if !self.started {
            return false;
        }
        if stream.readable_stream_has_default_reader() && stream.read_requests.len() > 0 {
            return true;
        }
        if stream.readable_stream_has_byob_reader() && stream.read_requests.len() > 0 {
            return true;
        }
        match self.readable_byte_stream_controller_get_desired_size(stream) {
            Option::Some(d) => d > 0,
            Option::None => false,
        }
    }

    /// The controller with only its pulling flags changed.
    pub open spec fn same_but_pulling(self, other: Self) -> bool {
        &&& self.queue@ == other.queue@
        &&& self.queue_total_size == other.queue_total_size
        &&& self.pending_pull_intos@ == other.pending_pull_intos@
        &&& self.byob_request == other.byob_request
        &&& self.algorithms_cleared == other.algorithms_cleared
        &&& self.close_requested == other.close_requested
        &&& self.started == other.started
        &&& self.strategy_hwm == other.strategy_hwm
        &&& self.auto_allocate_chunk_size == other.auto_allocate_chunk_size
    }

    /// ReadableByteStreamControllerCallPullIfNeeded: pulls when it should, or
    /// asks for one more pull once the running one settles.
    pub fn readable_byte_stream_controller_call_pull_if_needed(
        &mut self,
        stream: &ReadableStream,
        effects: &mut Vec<ReadableEffect>,
    )
        ensures
            final(self).same_but_pulling(*old(self)),
            ({
                let should = old(self).spec_should_call_pull(stream@);
                &&& !should ==> final(self).pulling == old(self).pulling && final(self).pull_again
                    == old(self).pull_again && final(effects)@ == old(effects)@
                &&& should && old(self).pulling ==> final(self).pull_again && final(self).pulling
                    && final(effects)@ == old(effects)@
                &&& should && !old(self).pulling ==> final(self).pulling && final(self).pull_again
                    == old(self).pull_again && final(effects)@ == old(effects)@.push(
                    ReadableEffect::CallPull,
                )
            }),
            old(self).flags_after_pull(*final(self), old(self).spec_should_call_pull(stream@)),
            final(effects)@ == old(effects)@ + old(self).pull_effects(old(self).spec_should_call_pull(stream@)),
    {
        if !self.readable_byte_stream_controller_should_call_pull(stream) {
            return;
        }
        if self.pulling {
            self.pull_again = true;
            assert(effects@ =~= old(effects)@ + old(self).pull_effects(true));
            return;
        }
        self.pulling = true;
        effects.push(ReadableEffect::CallPull);
        assert(effects@ =~= old(effects)@ + old(self).pull_effects(true));
    }

    /// Upon fulfillment of the start promise: the controller has started and
    /// pulls if needed.
    pub fn start_fulfilled(&mut self, stream: &ReadableStream, effects: &mut Vec<ReadableEffect>)
        ensures
            final(self).started,
            final(self).queue@ == old(self).queue@,
            final(self).pending_pull_intos@ == old(self).pending_pull_intos@,
            final(self).queue_total_size == old(self).queue_total_size,
            final(self).close_requested == old(self).close_requested,
            final(self).algorithms_cleared == old(self).algorithms_cleared,
            final(self).byob_request == old(self).byob_request,
            final(self).strategy_hwm == old(self).strategy_hwm,
            final(self).auto_allocate_chunk_size == old(self).auto_allocate_chunk_size,
            ({
                let should = (ReadableStreamByteController { started: true, ..*old(self) }).spec_should_call_pull(
                    stream@,
                );
                &&& !should ==> final(self).pulling == old(self).pulling && final(self).pull_again
                    == old(self).pull_again && final(effects)@ == old(effects)@
                &&& should && old(self).pulling ==> final(self).pull_again && final(self).pulling
                    && final(effects)@ == old(effects)@
                &&& should && !old(self).pulling ==> final(self).pulling && final(self).pull_again
                    == old(self).pull_again && final(effects)@ == old(effects)@.push(
                    ReadableEffect::CallPull,
                )
            }),
    {
        self.started = true;
        self.readable_byte_stream_controller_call_pull_if_needed(stream, effects);
    }

    /// Upon fulfillment of the pull promise: pulling ends, and a pull that was
    /// asked for meanwhile is made if still needed.
    pub fn pull_fulfilled(&mut self, stream: &ReadableStream, effects: &mut Vec<ReadableEffect>)
        ensures
            final(self).same_but_pulling(*old(self)),
            !final(self).pull_again,
            !old(self).pull_again ==> !final(self).pulling && final(effects)@ == old(effects)@,
            old(self).pull_again ==> (final(self).pulling <==> old(self).spec_should_call_pull(stream@))
                && final(effects)@ == old(effects)@ + (if old(self).spec_should_call_pull(stream@) {
                seq![ReadableEffect::CallPull]
            } else {
                seq![]
            }),
    {
        self.pulling = false;
        if self.pull_again {
            self.pull_again = false;
            self.readable_byte_stream_controller_call_pull_if_needed(stream, effects);
            assert(effects@ =~= old(effects)@ + (if old(self).spec_should_call_pull(stream@) {
                seq![ReadableEffect::CallPull]
            } else {
                seq![]
            }));
        }
    }

    /// The controller after its pending pull-intos, queue and algorithms were
    /// cleared: nothing held, no BYOB request, the rest as in `before`.
    pub open spec fn cleared_from(self, before: Self) -> bool {
        &&& self.queue@.len() == 0
        &&& self.queue_total_size == 0
        &&& self.pending_pull_intos@.len() == 0
        &&& self.byob_request is None
        &&& self.algorithms_cleared
        &&& self.close_requested == before.close_requested
        &&& self.started == before.started
        &&& self.pulling == before.pulling
        &&& self.pull_again == before.pull_again
        &&& self.strategy_hwm == before.strategy_hwm
        &&& self.auto_allocate_chunk_size == before.auto_allocate_chunk_size
    }

    /// ReadableByteStreamControllerClearPendingPullIntos together with
    /// ResetQueue and ReadableByteStreamControllerClearAlgorithms.
    fn clear_all(&mut self, effects: &mut Vec<ReadableEffect>)
        requires
            old(self).wf(),
        ensures
            final(self).wf(),
            final(self).queue@.len() == 0,
            final(self).queue_total_size == 0,
            final(self).pending_pull_intos@.len() == 0,
            final(self).byob_request is None,
            final(self).algorithms_cleared,
            final(self).close_requested == old(self).close_requested,
            final(self).started == old(self).started,
            final(self).pulling == old(self).pulling,
            final(self).pull_again == old(self).pull_again,
            final(self).strategy_hwm == old(self).strategy_hwm,
            final(self).auto_allocate_chunk_size == old(self).auto_allocate_chunk_size,
            final(effects)@ == old(effects)@ + old(self).invalidate_effects() + seq![
                ReadableEffect::ClearAlgorithms,
            ],
    {
        self.invalidate_byob_request(effects);
        self.pending_pull_intos.clear();
        self.queue.clear();
        self.queue_total_size = 0;
        self.algorithms_cleared = true;
        effects.push(ReadableEffect::ClearAlgorithms);
        assert(queue_bytes(self.queue@) == 0);
    }

    /// ReadableByteStreamControllerError: when the stream is readable, pending
    /// pull-intos and queue are cleared, the algorithms dropped and the stream
    /// errored with `e`.
    pub fn readable_byte_stream_controller_error(
        &mut self,
        stream: &mut ReadableStream,
        e: Reason,
        effects: &mut Vec<ReadableEffect>,
    )
        requires
            old(stream)@.wf(),
            old(self).wf(),
        ensures
            final(stream)@.wf(),
            final(self).wf(),
            old(stream).state != ReadableStreamState::Readable ==> final(stream)@ == old(stream)@
                && *final(self) == *old(self) && final(effects)@ == old(effects)@,
            old(stream).state == ReadableStreamState::Readable ==> {
                &&& final(self).cleared_from(*old(self))
                &&& final(stream)@ == old(stream)@.errored(e)
                &&& final(effects)@ == old(effects)@ + old(self).invalidate_effects() + seq![
                    ReadableEffect::ClearAlgorithms,
                ] + old(stream)@.error_effects(e)
            },
    {
        if stream.state != ReadableStreamState::Readable {
            return;
        }
        self.clear_all(effects);
        stream.readable_stream_error(e, effects);
    }

    /// The public `error(e)` of a byte controller.
    pub fn error(&mut self, stream: &mut ReadableStream, e: Reason, effects: &mut Vec<ReadableEffect>)
        requires
            old(stream)@.wf(),
            old(self).wf(),
        ensures
            final(stream)@.wf(),
            final(self).wf(),
            old(stream).state != ReadableStreamState::Readable ==> final(stream)@ == old(stream)@
                && *final(self) == *old(self) && final(effects)@ == old(effects)@,
            old(stream).state == ReadableStreamState::Readable ==> {
                &&& final(stream)@ == old(stream)@.errored(e)
                &&& final(self).cleared_from(*old(self))
                &&& final(effects)@ == old(effects)@ + old(self).invalidate_effects() + seq![
                    ReadableEffect::ClearAlgorithms,
                ] + old(stream)@.error_effects(e)
            },
    {
        self.readable_byte_stream_controller_error(stream, e, effects);
    }

    /// ReadableByteStreamControllerHandleQueueDrain: once the queue is empty
    /// after a requested close, the algorithms are dropped and the stream
    /// closed; otherwise the controller pulls if needed.
    pub fn readable_byte_stream_controller_handle_queue_drain(
        &mut self,
        stream: &mut ReadableStream,
        effects: &mut Vec<ReadableEffect>,
    )
        requires
            old(stream)@.wf(),
            old(stream).state == ReadableStreamState::Readable,
        ensures
            final(stream).disturbed == old(stream).disturbed,
            final(stream).byte_source == old(stream).byte_source,
            final(stream)@.wf(),
            final(self).queue@ == old(self).queue@,
            final(self).queue_total_size == old(self).queue_total_size,
            final(self).pending_pull_intos@ == old(self).pending_pull_intos@,
            final(self).close_requested == old(self).close_requested,
            final(self).auto_allocate_chunk_size == old(self).auto_allocate_chunk_size,
            final(self).byob_request == old(self).byob_request,
            final(self).strategy_hwm == old(self).strategy_hwm,
            final(self).started == old(self).started,
            final(stream).reader == old(stream).reader,
            final(stream).state != ReadableStreamState::Errored,
            old(effects)@.is_prefix_of(final(effects)@),
            old(self).queue_total_size == 0 && old(self).close_requested ==> {
                &&& final(self).algorithms_cleared
                &&& final(stream)@ == old(stream)@.closed()
                &&& final(effects)@ == old(effects)@.push(ReadableEffect::ClearAlgorithms)
                    + old(stream)@.close_effects()
            },
            old(self).queue_total_size == 0 && old(self).close_requested ==> final(self).pulling
                == old(self).pulling && final(self).pull_again == old(self).pull_again,
            !(old(self).queue_total_size == 0 && old(self).close_requested) ==> {
                let should = old(self).spec_should_call_pull(old(stream)@);
                &&& final(stream)@ == old(stream)@
                &&& final(self).same_but_pulling(*old(self))
                &&& old(self).flags_after_pull(*final(self), should)
                &&& final(effects)@ == old(effects)@ + old(self).pull_effects(should)
            },
    {
        if self.queue_total_size == 0 && self.close_requested {
            self.algorithms_cleared = true;
            effects.push(ReadableEffect::ClearAlgorithms);
            stream.readable_stream_close(effects);
        } else {
            self.readable_byte_stream_controller_call_pull_if_needed(stream, effects);
        }
    }

    /// ReadableByteStreamControllerEnqueueChunkToQueue: the chunk joins the
    /// queue and its bytes the queue total.
    pub fn readable_byte_stream_controller_enqueue_chunk_to_queue(
        &mut self,
        buffer: u64,
        byte_offset: usize,
        byte_length: usize,
    )
        requires
            old(self).wf(),
            byte_length > 0,
            byte_offset + byte_length <= usize::MAX,
            old(self).queue_total_size + byte_length <= usize::MAX,
        ensures
            final(self).wf(),
            final(self).queue@ == old(self).queue@.push(
                ReadableByteStreamQueueEntry { buffer, byte_offset, byte_length },
            ),
            final(self).queue_total_size == old(self).queue_total_size + byte_length,
            final(self).pending_pull_intos@ == old(self).pending_pull_intos@,
            final(self).same_but_queue(*old(self)),
    {
        let e = ReadableByteStreamQueueEntry { buffer, byte_offset, byte_length };
        proof {
            lemma_queue_bytes_push(self.queue@, e);
        }
        self.queue.push(e);
        self.queue_total_size = self.queue_total_size + byte_length;
        assert(queue_wf(self.queue@)) by {
            assert forall|i: int| 0 <= i < self.queue@.len() implies (#[trigger] self.queue@[i]).wf() by {
                if i < old(self).queue@.len() {
                    assert(self.queue@[i] == old(self).queue@[i]);
                }
            }
        }
    }

    /// The controller with only its queue changed.
    pub open spec fn same_but_queue(self, other: Self) -> bool {
        &&& self.pending_pull_intos@ == other.pending_pull_intos@
        &&& self.byob_request == other.byob_request
        &&& self.algorithms_cleared == other.algorithms_cleared
        &&& self.close_requested == other.close_requested
        &&& self.started == other.started
        &&& self.pulling == other.pulling
        &&& self.pull_again == other.pull_again
        &&& self.strategy_hwm == other.strategy_hwm
        &&& self.auto_allocate_chunk_size == other.auto_allocate_chunk_size
    }

    /// ReadableByteStreamControllerShiftPendingPullInto: the oldest pending
    /// descriptor leaves the list and is returned.
    pub fn readable_byte_stream_controller_shift_pending_pull_into(&mut self) -> (d: PullIntoDescriptor)
        requires
            old(self).pending_pull_intos@.len() > 0,
        ensures
            d == old(self).pending_pull_intos@[0],
            final(self).pending_pull_intos@ == old(self).pending_pull_intos@.drop_first(),
            final(self).queue@ == old(self).queue@,
            final(self).queue_total_size == old(self).queue_total_size,
            final(self).byob_request == old(self).byob_request,
            final(self).algorithms_cleared == old(self).algorithms_cleared,
            final(self).close_requested == old(self).close_requested,
            final(self).started == old(self).started,
            final(self).pulling == old(self).pulling,
            final(self).pull_again == old(self).pull_again,
            final(self).strategy_hwm == old(self).strategy_hwm,
            final(self).auto_allocate_chunk_size == old(self).auto_allocate_chunk_size,
    {
        self.pending_pull_intos.remove(0)
    }

    /// The release steps of a byte controller: only the oldest pending
    /// descriptor stays, now waited for by no reader.
    pub fn release_steps(&mut self)
        requires
            old(self).wf(),
        ensures
            final(self).wf(),
            old(self).pending_pull_intos@.len() == 0 ==> final(self).pending_pull_intos@.len() == 0,
            old(self).pending_pull_intos@.len() > 0 ==> final(self).pending_pull_intos@ == seq![
                PullIntoDescriptor {
                    reader_type: PullIntoDescriptorReaderType::NoReader,
                    ..old(self).pending_pull_intos@[0]
                },
            ],
            final(self).queue@ == old(self).queue@,
            final(self).queue_total_size == old(self).queue_total_size,
            final(self).close_requested == old(self).close_requested,
            final(self).started == old(self).started,
            final(self).pulling == old(self).pulling,
            final(self).pull_again == old(self).pull_again,
            final(self).algorithms_cleared == old(self).algorithms_cleared,
            final(self).byob_request == old(self).byob_request,
            final(self).strategy_hwm == old(self).strategy_hwm,
            final(self).auto_allocate_chunk_size == old(self).auto_allocate_chunk_size,
    {
        if self.pending_pull_intos.len() > 0 {
            let first = self.pending_pull_intos[0];
            let released = PullIntoDescriptor { reader_type: PullIntoDescriptorReaderType::NoReader, ..first };
            self.pending_pull_intos.truncate(1);
            self.pending_pull_intos.set(0, released);
            assert(self.pending_pull_intos@ =~= seq![released]);
            assert(self.pending_pull_intos@[0].pending_wf());
        }
    }
}


impl ReadableStreamByteController {
    /// ReadableByteStreamControllerClose: with bytes still queued the close is
    /// only requested; a pending descriptor holding part of an element errors
    /// the stream; otherwise the algorithms are dropped and the stream closed.
    pub fn readable_byte_stream_controller_close(
        &mut self,
        stream: &mut ReadableStream,
        effects: &mut Vec<ReadableEffect>,
    ) -> (r: Result<(), Reason>)
        requires
            old(stream)@.wf(),
            old(self).wf(),
        ensures
            final(stream)@.wf(),
            final(self).wf(),
            old(self).close_requested || old(stream).state != ReadableStreamState::Readable ==> r is Ok
                && final(stream)@ == old(stream)@ && *final(self) == *old(self) && final(effects)@
                == old(effects)@,
            !old(self).close_requested && old(stream).state == ReadableStreamState::Readable ==> {
                &&& old(self).queue_total_size > 0 ==> r is Ok && final(self).close_requested
                    && final(self).same_but_close(*old(self)) && final(stream)@ == old(stream)@
                    && final(effects)@ == old(effects)@
                &&& old(self).queue_total_size == 0 && old(self).partial_element_pending() ==> {
                    let e = Reason::Error(StreamError::InsufficientBytes);
                    &&& r == Err::<(), Reason>(e)
                    &&& final(stream)@ == old(stream)@.errored(e)
                    &&& final(self).cleared_from(*old(self))
                    &&& final(effects)@ == old(effects)@ + old(self).invalidate_effects() + seq![
                        ReadableEffect::ClearAlgorithms,
                    ] + old(stream)@.error_effects(e)
                }
                &&& old(self).queue_total_size == 0 && !old(self).partial_element_pending() ==> r
                    is Ok && final(self).algorithms_cleared && final(stream)@ == old(stream)@.closed()
                    && final(effects)@ == old(effects)@.push(ReadableEffect::ClearAlgorithms)
                    + old(stream)@.close_effects() && final(self).same_but_algorithms(*old(self))
            },
    {
        if self.close_requested || stream.state != ReadableStreamState::Readable {
            return Ok(());
        }
        if self.queue_total_size > 0 {
            self.close_requested = true;
            return Ok(());
        }
        if self.pending_pull_intos.len() > 0 {
            let first = self.pending_pull_intos[0];
            assert(self.pending_pull_intos@[0].pending_wf());
            if first.bytes_filled % first.element_size != 0 {
                let e = Reason::Error(StreamError::InsufficientBytes);
                self.readable_byte_stream_controller_error(stream, e, effects);
                return Err(e);
            }
        }
        self.algorithms_cleared = true;
        effects.push(ReadableEffect::ClearAlgorithms);
        stream.readable_stream_close(effects);
        Ok(())
    }

    /// The oldest pending descriptor holds part of an element.
    pub open spec fn partial_element_pending(self) -> bool {
        self.pending_pull_intos@.len() > 0 && self.pending_pull_intos@[0].bytes_filled
            % self.pending_pull_intos@[0].element_size != 0
    }

    /// The controller with the same BYOB request, close request, start, high
    /// water mark and auto-allocate chunk size.
    pub open spec fn same_config(self, other: Self) -> bool {
        &&& self.byob_request == other.byob_request
        &&& self.close_requested == other.close_requested
        &&& self.started == other.started
        &&& self.strategy_hwm == other.strategy_hwm
        &&& self.auto_allocate_chunk_size == other.auto_allocate_chunk_size
    }

    /// The controller with only its algorithms flag changed.
    pub open spec fn same_but_algorithms(self, other: Self) -> bool {
        &&& self.queue@ == other.queue@
        &&& self.queue_total_size == other.queue_total_size
        &&& self.pending_pull_intos@ == other.pending_pull_intos@
        &&& self.byob_request == other.byob_request
        &&& self.close_requested == other.close_requested
        &&& self.started == other.started
        &&& self.pulling == other.pulling
        &&& self.pull_again == other.pull_again
        &&& self.strategy_hwm == other.strategy_hwm
        &&& self.auto_allocate_chunk_size == other.auto_allocate_chunk_size
    }

    /// The controller with only its close request changed.
    pub open spec fn same_but_close(self, other: Self) -> bool {
        &&& self.queue@ == other.queue@
        &&& self.queue_total_size == other.queue_total_size
        &&& self.pending_pull_intos@ == other.pending_pull_intos@
        &&& self.byob_request == other.byob_request
        &&& self.algorithms_cleared == other.algorithms_cleared
        &&& self.started == other.started
        &&& self.pulling == other.pulling
        &&& self.pull_again == other.pull_again
        &&& self.strategy_hwm == other.strategy_hwm
        &&& self.auto_allocate_chunk_size == other.auto_allocate_chunk_size
    }

    /// The public `close()` of a byte controller: refused when a close was
    /// already requested or the stream is not readable.
    pub fn close(&mut self, stream: &mut ReadableStream, effects: &mut Vec<ReadableEffect>) -> (r: Result<(), Reason>)
        requires
            old(stream)@.wf(),
            old(self).wf(),
        ensures
            final(stream)@.wf(),
            final(self).wf(),
            old(self).close_requested ==> r == Err::<(), Reason>(Reason::Error(StreamError::CloseCalledTwice))
                && final(stream)@ == old(stream)@ && final(effects)@ == old(effects)@ && *final(self) == *old(self),
            !old(self).close_requested && old(stream).state != ReadableStreamState::Readable ==> r
                == Err::<(), Reason>(Reason::Error(StreamError::CloseNotReadable)) && final(stream)@
                == old(stream)@ && final(effects)@ == old(effects)@ && *final(self) == *old(self),
            !old(self).close_requested && old(stream).state == ReadableStreamState::Readable ==> (r
                is Ok <==> !(old(self).queue_total_size == 0 && old(self).partial_element_pending())),
            !old(self).close_requested && old(stream).state == ReadableStreamState::Readable ==> {
                &&& old(self).queue_total_size > 0 ==> final(self).close_requested && final(self).same_but_close(
                    *old(self),
                ) && final(stream)@ == old(stream)@ && final(effects)@ == old(effects)@
                &&& old(self).queue_total_size == 0 && old(self).partial_element_pending() ==> {
                    let e = Reason::Error(StreamError::InsufficientBytes);
                    &&& r == Err::<(), Reason>(e)
                    &&& final(stream)@ == old(stream)@.errored(e)
                    &&& final(self).cleared_from(*old(self))
                    &&& final(effects)@ == old(effects)@ + old(self).invalidate_effects() + seq![
                        ReadableEffect::ClearAlgorithms,
                    ] + old(stream)@.error_effects(e)
                }
                &&& old(self).queue_total_size == 0 && !old(self).partial_element_pending() ==> final(self).algorithms_cleared
                    && final(self).same_but_algorithms(*old(self))
                    && final(stream)@ == old(stream)@.closed() && final(effects)@ == old(effects)@.push(
                    ReadableEffect::ClearAlgorithms,
                ) + old(stream)@.close_effects()
            },
    {
        if self.close_requested {
            return Err(Reason::Error(StreamError::CloseCalledTwice));
        }
        if stream.state != ReadableStreamState::Readable {
            return Err(Reason::Error(StreamError::CloseNotReadable));
        }
        self.readable_byte_stream_controller_close(stream, effects)
    }

    /// ReadableByteStreamControllerFillReadRequestFromQueue: the oldest queued
    /// chunk goes, as a Uint8Array, to the read request `request`, after the
    /// drained queue was handled.
    pub fn readable_byte_stream_controller_fill_read_request_from_queue(
        &mut self,
        stream: &mut ReadableStream,
        request: u64,
        effects: &mut Vec<ReadableEffect>,
    )
        requires
            old(stream)@.wf(),
            old(self).wf(),
            old(stream).state == ReadableStreamState::Readable,
            old(self).queue_total_size > 0,
        ensures
            final(stream).disturbed == old(stream).disturbed,
            final(stream).byte_source == old(stream).byte_source,
            final(stream)@.wf(),
            final(self).wf(),
            final(self).queue@ == old(self).queue@.drop_first(),
            final(self).queue_total_size == old(self).queue_total_size - old(self).queue@[0].byte_length,
            final(self).pending_pull_intos@ == old(self).pending_pull_intos@,
            final(self).close_requested == old(self).close_requested,
            final(self).auto_allocate_chunk_size == old(self).auto_allocate_chunk_size,
            final(self).byob_request == old(self).byob_request,
            final(self).strategy_hwm == old(self).strategy_hwm,
            final(self).started == old(self).started,
            final(stream).reader == old(stream).reader,
            final(stream).state != ReadableStreamState::Errored,
            old(effects)@.is_prefix_of(final(effects)@),
            final(effects)@.last() == entry_read(request, old(self).queue@[0]),
            final(self).queue_total_size == 0 && old(self).close_requested ==> final(stream)@ == old(stream)@.closed() && final(effects)@ == old(effects)@.push(ReadableEffect::ClearAlgorithms)
                + old(stream)@.close_effects() + seq![
                entry_read(request, old(self).queue@[0]),
            ],
            final(self).queue_total_size == 0 && old(self).close_requested ==> final(self).algorithms_cleared
                && final(self).pulling == old(self).pulling && final(self).pull_again == old(self).pull_again,
            !(final(self).queue_total_size == 0 && old(self).close_requested) ==> {
                let should = old(self).should_pull_at(old(stream)@, final(self).queue_total_size as int);
                &&& final(stream)@ == old(stream)@
                &&& final(self).algorithms_cleared == old(self).algorithms_cleared
                &&& old(self).flags_after_pull(*final(self), should)
                &&& final(effects)@ == old(effects)@ + old(self).pull_effects(should) + seq![
                    entry_read(request, old(self).queue@[0]),
                ]
            },
    {
        let entry = self.queue.remove(0);
        assert(old(self).queue@[0].wf());
        self.queue_total_size = self.queue_total_size - entry.byte_length;
        assert(queue_wf(self.queue@)) by {
            assert forall|i: int| 0 <= i < self.queue@.len() implies (#[trigger] self.queue@[i]).wf() by {
                assert(self.queue@[i] == old(self).queue@[i + 1]);
            }
        }
        let ghost e1 = effects@;
        self.readable_byte_stream_controller_handle_queue_drain(stream, effects);
        effects.push(ReadableEffect::ReadChunk {
            request,
            chunk: Chunk::View {
                buffer: entry.buffer,
                byte_offset: entry.byte_offset,
                length: entry.byte_length,
                view: ViewType::Uint8Array,
            },
        });
        proof {
            if !(self.queue_total_size == 0 && old(self).close_requested) {
                let should = old(self).should_pull_at(old(stream)@, self.queue_total_size as int);
                assert(effects@ =~= old(effects)@ + old(self).pull_effects(should) + seq![
                    entry_read(request, old(self).queue@[0]),
                ]);
            }
        }
    }

    /// Serving the read requests of `st` from its queue, one queued chunk per
    /// request, as ReadableByteStreamControllerProcessReadRequestsUsingQueue
    /// does on a stream `s` with a default reader: the last chunk of a
    /// requested close closes the stream; otherwise the controller pulls if
    /// needed before each request takes its chunk.
    pub open spec fn serve_reads(self, s: ReadableStreamView, st: ReadServing) -> ReadServing
        decreases st.requests.len(),
    {
        if st.closed || st.requests.len() == 0 || st.total <= 0 || st.queue.len() == 0 {
            st
        } else {
            let entry = st.queue[0];
            let rest = st.requests.drop_first();
            let total = st.total - entry.byte_length;
            let read = entry_read(st.requests[0], entry);
            if total == 0 && self.close_requested {
                ReadServing {
                    queue: st.queue.drop_first(),
                    total,
                    requests: Seq::empty(),
                    closed: true,
                    effects: st.effects.push(ReadableEffect::ClearAlgorithms) + s.with_requests(
                        rest,
                    ).close_effects() + seq![read],
                    ..st
                }
            } else {
                let should = self.should_pull_at(s.with_requests(rest), total);
                let pull = if should && !st.pulling {
                    seq![ReadableEffect::CallPull]
                } else {
                    seq![]
                };
                self.serve_reads(
                    s,
                    ReadServing {
                        queue: st.queue.drop_first(),
                        total,
                        requests: rest,
                        pulling: st.pulling || should,
                        pull_again: st.pull_again || (should && st.pulling),
                        closed: false,
                        effects: st.effects + pull + seq![read],
                    },
                )
            }
        }
    }

    /// ReadableByteStreamControllerProcessReadRequestsUsingQueue: while the
    /// default reader waits and bytes are queued, the oldest request takes the
    /// oldest queued chunk.
    pub fn readable_byte_stream_controller_process_read_requests_using_queue(
        &mut self,
        stream: &mut ReadableStream,
        effects: &mut Vec<ReadableEffect>,
    )
        requires
            old(stream)@.wf(),
            old(self).wf(),
            old(stream)@.has_default_reader(),
            old(stream).state == ReadableStreamState::Readable,
        ensures
            final(stream).disturbed == old(stream).disturbed,
            final(stream).byte_source == old(stream).byte_source,
            final(stream)@.wf(),
            final(self).wf(),
            final(stream).reader == old(stream).reader,
            final(stream).state != ReadableStreamState::Errored,
            final(stream).state == ReadableStreamState::Readable || final(stream).read_requests@.len() == 0,
            final(self).pending_pull_intos@ == old(self).pending_pull_intos@,
            final(self).close_requested == old(self).close_requested,
            final(self).queue_total_size <= old(self).queue_total_size,
            final(self).auto_allocate_chunk_size == old(self).auto_allocate_chunk_size,
            final(self).byob_request == old(self).byob_request,
            final(self).strategy_hwm == old(self).strategy_hwm,
            final(self).started == old(self).started,
            old(effects)@.is_prefix_of(final(effects)@),
            final(stream).read_requests@.len() == 0 || final(self).queue_total_size == 0,
            old(self).queue_total_size == 0 ==> final(stream)@ == old(stream)@ && *final(self) == *old(self) && final(effects)@ == old(effects)@,
            ({
                let r = old(self).serve_reads(old(stream)@, old(self).reads_start(old(stream)@, old(effects)@));
                &&& final(self).queue@ == r.queue
                &&& final(self).queue_total_size == r.total
                &&& final(self).pulling == r.pulling
                &&& final(self).pull_again == r.pull_again
                &&& final(self).algorithms_cleared == (old(self).algorithms_cleared || r.closed)
                &&& final(effects)@ == r.effects
                &&& !r.closed ==> final(stream)@ == old(stream)@.with_requests(r.requests)
                &&& r.closed ==> final(stream)@ == old(stream)@.closed()
            }),
    {
        let ghost s0 = old(stream)@;
        let ghost init = old(self).reads_start(old(stream)@, old(effects)@);
        while stream.read_requests.len() > 0
            invariant
                stream@.wf(),
                self.wf(),
                stream.reader == old(stream).reader,
                stream.disturbed == old(stream).disturbed,
                stream.byte_source == old(stream).byte_source,
                stream@.has_default_reader(),
                stream.state != ReadableStreamState::Errored,
                stream.state == ReadableStreamState::Readable || stream.read_requests@.len() == 0,
                self.pending_pull_intos@ == old(self).pending_pull_intos@,
                self.close_requested == old(self).close_requested,
                self.queue_total_size <= old(self).queue_total_size,
                self.auto_allocate_chunk_size == old(self).auto_allocate_chunk_size,
                self.byob_request == old(self).byob_request,
                self.strategy_hwm == old(self).strategy_hwm,
                self.started == old(self).started,
                old(effects)@.is_prefix_of(effects@),
                old(self).queue_total_size == 0 ==> stream@ == old(stream)@ && *self == *old(self)
                    && effects@ == old(effects)@,
                old(self).serve_reads(s0, self.reads_now(stream@, effects@)) == old(self).serve_reads(s0, init),
                self.algorithms_cleared == (old(self).algorithms_cleared || stream.state == ReadableStreamState::Closed),
                stream.state == ReadableStreamState::Readable ==> stream@ == s0.with_requests(stream.read_requests@),
                stream.state == ReadableStreamState::Closed ==> stream@ == s0.closed(),
            ensures
                stream.read_requests@.len() == 0 || self.queue_total_size == 0,
            decreases stream.read_requests@.len(),
        {
            if self.queue_total_size == 0 {
                break;
            }
            let ghost cur = self.reads_now(stream@, effects@);
            assert(self.queue@.len() > 0);
            let request = stream.read_requests.remove(0);
            let ghost s1 = stream@;
            self.readable_byte_stream_controller_fill_read_request_from_queue(stream, request, effects);
            proof {
                assert(cur.requests.drop_first() =~= s1.read_requests);
                assert(s1 == s0.with_requests(cur.requests.drop_first()));
                if stream.state == ReadableStreamState::Closed {
                    assert(self.reads_now(stream@, effects@) == old(self).serve_reads(s0, cur));
                } else {
                    assert(self.reads_now(stream@, effects@) =~= ReadServing {
                        queue: cur.queue.drop_first(),
                        total: cur.total - cur.queue[0].byte_length,
                        requests: cur.requests.drop_first(),
                        pulling: self.pulling,
                        pull_again: self.pull_again,
                        closed: false,
                        effects: effects@,
                    });
                }
            }
        }
        assert(old(self).serve_reads(s0, self.reads_now(stream@, effects@)) == self.reads_now(stream@, effects@));
    }

    /// What serving reads starts from: the controller's queue and flags and
    /// the stream's requests, with the steps `effects` handed over before.
    pub open spec fn reads_start(self, s: ReadableStreamView, effects: Seq<ReadableEffect>) -> ReadServing {
        ReadServing {
            queue: self.queue@,
            total: self.queue_total_size as int,
            requests: s.read_requests,
            pulling: self.pulling,
            pull_again: self.pull_again,
            closed: false,
            effects,
        }
    }

    /// Where serving reads stands, read off the controller and the stream.
    pub open spec fn reads_now(self, s: ReadableStreamView, effects: Seq<ReadableEffect>) -> ReadServing {
        ReadServing {
            queue: self.queue@,
            total: self.queue_total_size as int,
            requests: s.read_requests,
            pulling: self.pulling,
            pull_again: self.pull_again,
            closed: s.state == ReadableStreamState::Closed,
            effects,
        }
    }

    /// What ReadableByteStreamControllerCommitPullIntoDescriptor makes of the
    /// stream `s`, and the steps it hands to the host, for the filled `desc`.
    pub open spec fn commit_result(s: ReadableStreamView, desc: PullIntoDescriptor) -> (ReadableStreamView, Seq<ReadableEffect>) {
        let done = s.state == ReadableStreamState::Closed;
        let view = spec_filled_view(desc);
        let transfer = ReadableEffect::TransferBuffer { buffer: desc.buffer };
        if desc.reader_type == PullIntoDescriptorReaderType::Default {
            if s.has_default_reader() && s.read_requests.len() > 0 {
                (s.with_requests(s.read_requests.drop_first()), seq![transfer, s.fulfill_effect(view, done)])
            } else {
                (s, seq![transfer])
            }
        } else {
            if s.has_byob_reader() && s.read_requests.len() > 0 {
                (s.with_requests(s.read_requests.drop_first()), seq![transfer, s.fulfill_into_effect(view, done)])
            } else {
                (s, seq![transfer])
            }
        }
    }

    /// Filling the pending descriptors of `st` from its queue, oldest first,
    /// as ReadableByteStreamControllerProcessPullIntoDescriptorsUsingQueue
    /// does: a descriptor that reaches its minimum fill is committed to its
    /// reader; one that does not stays first, having taken every queued byte.
    pub open spec fn serve_pull_intos(st: PullIntoServing) -> PullIntoServing
        decreases st.pending.len(),
    {
        if st.pending.len() == 0 || st.total <= 0 {
            st
        } else {
            let d = st.pending[0];
            let amount = fill_amount(st.total as nat, d);
            let n = amount.0;
            let filled = filled_by(d, n);
            let effects = st.effects + copy_effects(st.queue, n, d.buffer, (d.byte_offset + d.bytes_filled) as nat);
            if amount.1 {
                let committed = Self::commit_result(st.stream, filled);
                Self::serve_pull_intos(
                    PullIntoServing {
                        queue: consume_queue(st.queue, n),
                        total: st.total - n,
                        pending: st.pending.drop_first(),
                        stream: committed.0,
                        effects: effects + committed.1,
                    },
                )
            } else {
                PullIntoServing {
                    queue: consume_queue(st.queue, n),
                    total: st.total - n,
                    pending: st.pending.update(0, filled),
                    stream: st.stream,
                    effects,
                }
            }
        }
    }

    /// Where filling descriptors stands, read off the controller and the stream.
    pub open spec fn pull_intos_now(self, s: ReadableStreamView, effects: Seq<ReadableEffect>) -> PullIntoServing {
        PullIntoServing {
            queue: self.queue@,
            total: self.queue_total_size as int,
            pending: self.pending_pull_intos@,
            stream: s,
            effects,
        }
    }

    /// ReadableByteStreamControllerCommitPullIntoDescriptor: the filled view of
    /// `desc` goes to the oldest request of its reader, as its last chunk when
    /// the stream is closed. A descriptor whose reader holds no request is dropped.
    pub fn readable_byte_stream_controller_commit_pull_into_descriptor(
        stream: &mut ReadableStream,
        desc: PullIntoDescriptor,
        effects: &mut Vec<ReadableEffect>,
    )
        requires
            old(stream)@.wf(),
            desc.wf(),
            old(stream).state != ReadableStreamState::Errored,
        ensures
            final(stream).disturbed == old(stream).disturbed,
            final(stream).byte_source == old(stream).byte_source,
            final(stream)@.wf(),
            final(stream).state == old(stream).state,
            final(stream).reader == old(stream).reader,
            old(effects)@.is_prefix_of(final(effects)@),
            ({
                let done = old(stream).state == ReadableStreamState::Closed;
                let view = spec_filled_view(desc);
                let transfer = ReadableEffect::TransferBuffer { buffer: desc.buffer };
                if desc.reader_type == PullIntoDescriptorReaderType::Default {
                    if old(stream)@.has_default_reader() && old(stream).read_requests@.len() > 0 {
                        final(stream)@ == old(stream)@.with_requests(old(stream).read_requests@.drop_first())
                            && final(effects)@ == old(effects)@ + seq![
                            transfer,
                            old(stream)@.fulfill_effect(view, done),
                        ]
                    } else {
                        final(stream)@ == old(stream)@ && final(effects)@ == old(effects)@ + seq![transfer]
                    }
                } else {
                    if old(stream)@.has_byob_reader() && old(stream).read_requests@.len() > 0 {
                        final(stream)@ == old(stream)@.with_requests(old(stream).read_requests@.drop_first())
                            && final(effects)@ == old(effects)@ + seq![
                            transfer,
                            old(stream)@.fulfill_into_effect(view, done),
                        ]
                    } else {
                        final(stream)@ == old(stream)@ && final(effects)@ == old(effects)@ + seq![transfer]
                    }
                }
            }),
            final(stream)@ == Self::commit_result(old(stream)@, desc).0,
            final(effects)@ == old(effects)@ + Self::commit_result(old(stream)@, desc).1,
    {
        let done = stream.state == ReadableStreamState::Closed;
        let filled_view = convert_pull_into_descriptor(&desc, effects);
        match desc.reader_type {
            PullIntoDescriptorReaderType::Default => {
                if stream.readable_stream_has_default_reader() && stream.read_requests.len() > 0 {
                    stream.readable_stream_fulfill_read_request(filled_view, done, effects);
                }
            },
            _ => {
                if stream.readable_stream_has_byob_reader() && stream.read_requests.len() > 0 {
                    stream.readable_stream_fulfill_read_into_request(filled_view, done, effects);
                }
            },
        }
        proof {
            let transfer = ReadableEffect::TransferBuffer { buffer: desc.buffer };
            if effects@.len() == old(effects)@.len() + 1 {
                assert(effects@ =~= old(effects)@ + seq![transfer]);
            } else {
                let done = old(stream).state == ReadableStreamState::Closed;
                let view = spec_filled_view(desc);
                if desc.reader_type == PullIntoDescriptorReaderType::Default {
                    assert(effects@ =~= old(effects)@ + seq![transfer, old(stream)@.fulfill_effect(view, done)]);
                } else {
                    assert(effects@ =~= old(effects)@ + seq![
                        transfer,
                        old(stream)@.fulfill_into_effect(view, done),
                    ]);
                }
            }
        }
    }

    /// ReadableByteStreamControllerProcessPullIntoDescriptorsUsingQueue: while
    /// descriptors are pending and bytes queued, the oldest descriptor is
    /// filled from the queue and, once ready, committed to its reader.
    pub fn readable_byte_stream_controller_process_pull_into_descriptors_using_queue(
        &mut self,
        stream: &mut ReadableStream,
        effects: &mut Vec<ReadableEffect>,
    )
        requires
            old(stream)@.wf(),
            old(self).wf(),
            old(stream).state != ReadableStreamState::Errored,
        ensures
            final(stream).disturbed == old(stream).disturbed,
            final(stream).byte_source == old(stream).byte_source,
            final(stream)@.wf(),
            final(self).wf(),
            final(stream).state == old(stream).state,
            final(stream).reader == old(stream).reader,
            final(self).queue_total_size <= old(self).queue_total_size,
            final(self).pending_pull_intos@.len() <= old(self).pending_pull_intos@.len(),
            final(self).pending_pull_intos@.len() == 0 || final(self).queue_total_size == 0,
            final(self).close_requested == old(self).close_requested,
            final(self).same_but_queue_and_pending(*old(self)),
            old(effects)@.is_prefix_of(final(effects)@),
            old(self).queue_total_size == 0 || old(self).pending_pull_intos@.len() == 0 ==> final(stream)@ == old(stream)@ && final(self).queue@ == old(self).queue@
                && final(self).pending_pull_intos@ == old(self).pending_pull_intos@ && final(effects)@
                == old(effects)@,
            final(self).pull_intos_now(final(stream)@, final(effects)@) == Self::serve_pull_intos(
                old(self).pull_intos_now(old(stream)@, old(effects)@),
            ),
    {
        let ghost init = old(self).pull_intos_now(old(stream)@, old(effects)@);
        while self.pending_pull_intos.len() > 0
            invariant
                stream@.wf(),
                self.wf(),
                stream.state == old(stream).state,
                stream.reader == old(stream).reader,
                stream.disturbed == old(stream).disturbed,
                stream.byte_source == old(stream).byte_source,
                stream.state != ReadableStreamState::Errored,
                self.queue_total_size <= old(self).queue_total_size,
                self.pending_pull_intos@.len() <= old(self).pending_pull_intos@.len(),
                self.close_requested == old(self).close_requested,
                self.same_but_queue_and_pending(*old(self)),
                old(effects)@.is_prefix_of(effects@),
                old(self).queue_total_size == 0 || old(self).pending_pull_intos@.len() == 0 ==> stream@
                    == old(stream)@ && self.queue@ == old(self).queue@ && self.pending_pull_intos@
                    == old(self).pending_pull_intos@ && effects@ == old(effects)@,
                Self::serve_pull_intos(self.pull_intos_now(stream@, effects@)) == Self::serve_pull_intos(init),
            ensures
                self.pending_pull_intos@.len() == 0 || self.queue_total_size == 0,
            decreases self.pending_pull_intos@.len() + self.queue_total_size,
        {
            if self.queue_total_size == 0 {
                break;
            }
            let ghost cur = self.pull_intos_now(stream@, effects@);
            let ghost t0 = self.queue_total_size as nat;
            let ghost d0 = self.pending_pull_intos@[0];
            let ghost rest = self.pending_pull_intos@.drop_first();
            assert(d0.pending_wf());
            let mut head = self.pending_pull_intos.remove(0);
            let ready = fill_pull_into_descriptor_from_queue(
                &mut self.queue,
                &mut self.queue_total_size,
                &mut head,
                effects,
            );
            if ready {
                assert(pending_wf(self.pending_pull_intos@)) by {
                    assert forall|i: int| 0 <= i < self.pending_pull_intos@.len() implies (
                    #[trigger] self.pending_pull_intos@[i]).pending_wf() by {
                        assert(self.pending_pull_intos@[i] == rest[i]);
                    }
                }
                Self::readable_byte_stream_controller_commit_pull_into_descriptor(stream, head, effects);
                assert(self.pending_pull_intos@ =~= cur.pending.drop_first());
            } else {
                proof {
                    lemma_fill_not_ready(t0, d0);
                }
                self.pending_pull_intos.insert(0, head);
                assert(pending_wf(self.pending_pull_intos@)) by {
                    assert forall|i: int| 0 <= i < self.pending_pull_intos@.len() implies (
                    #[trigger] self.pending_pull_intos@[i]).pending_wf() by {
                        if i > 0 {
                            assert(self.pending_pull_intos@[i] == rest[i - 1]);
                        }
                    }
                }
                assert(self.pending_pull_intos@ =~= cur.pending.update(0, head));
            }
        }
        assert(Self::serve_pull_intos(self.pull_intos_now(stream@, effects@)) == self.pull_intos_now(stream@, effects@));
    }

    /// The controller with only its queue and pending descriptors changed.
    pub open spec fn same_but_queue_and_pending(self, other: Self) -> bool {
        &&& self.byob_request == other.byob_request
        &&& self.algorithms_cleared == other.algorithms_cleared
        &&& self.close_requested == other.close_requested
        &&& self.started == other.started
        &&& self.pulling == other.pulling
        &&& self.pull_again == other.pull_again
        &&& self.strategy_hwm == other.strategy_hwm
        &&& self.auto_allocate_chunk_size == other.auto_allocate_chunk_size
    }
}


/// The view handed to a read request for an enqueued chunk that skipped the queue.
pub open spec fn chunk_u8_view(v: ArrayBufferView) -> Chunk {
    Chunk::View { buffer: v.buffer, byte_offset: v.byte_offset, length: v.byte_length, view: ViewType::Uint8Array }
}

/// The descriptor of a BYOB read into `view` with at least `min` elements,
/// after its buffer was transferred to `buffer`.
pub open spec fn byob_descriptor(view: ArrayBufferView, min: nat, buffer: u64) -> PullIntoDescriptor {
    PullIntoDescriptor {
        buffer,
        buffer_byte_length: view.buffer_byte_length,
        byte_offset: view.byte_offset,
        byte_length: view.byte_length,
        bytes_filled: 0,
        minimum_fill: (min * spec_element_size(view.view_type)) as usize,
        element_size: spec_element_size(view.view_type) as usize,
        view_type: view.view_type,
        reader_type: PullIntoDescriptorReaderType::Byob,
    }
}

/// The descriptor of a read from a default reader into a buffer of `size`
/// bytes that the controller allocated as `buffer`.
pub open spec fn auto_descriptor(size: usize, buffer: u64) -> PullIntoDescriptor {
    PullIntoDescriptor {
        buffer,
        buffer_byte_length: size,
        byte_offset: 0,
        byte_length: size,
        bytes_filled: 0,
        minimum_fill: 1,
        element_size: 1,
        view_type: ViewType::Uint8Array,
        reader_type: PullIntoDescriptorReaderType::Default,
    }
}

impl ReadableStreamByteController {
    /// The bytes that may still join the queue: those of the oldest pending
    /// descriptor, if any.
    pub open spec fn first_pending_bytes(self) -> nat {
        if self.pending_pull_intos@.len() > 0 {
            self.pending_pull_intos@[0].byte_length as nat
        } else {
            0
        }
    }

    /// ReadableByteStreamControllerEnqueueDetachedPullIntoToQueue: the bytes
    /// already written into the oldest descriptor (whose reader is gone) join
    /// the queue as a clone named `clone_into`, and the descriptor leaves.
    pub fn readable_byte_stream_enqueue_detached_pull_into_to_queue(
        &mut self,
        clone_into: u64,
        effects: &mut Vec<ReadableEffect>,
    )
        requires
            old(self).wf(),
            old(self).pending_pull_intos@.len() > 0,
            old(self).queue_total_size + old(self).first_pending_bytes() <= usize::MAX,
        ensures
            final(self).wf(),
            final(self).pending_pull_intos@ == old(self).pending_pull_intos@.drop_first(),
            final(self).same_but_queue_and_pending(*old(self)),
            ({
                let d = old(self).pending_pull_intos@[0];
                &&& d.bytes_filled > 0 ==> final(self).queue@ == old(self).queue@.push(
                    ReadableByteStreamQueueEntry { buffer: clone_into, byte_offset: d.byte_offset, byte_length: d.bytes_filled },
                ) && final(self).queue_total_size == old(self).queue_total_size + d.bytes_filled
                    && final(effects)@ == old(effects)@.push(
                    ReadableEffect::CloneBuffer { from: d.buffer, into: clone_into },
                )
                &&& d.bytes_filled == 0 ==> final(self).queue@ == old(self).queue@
                    && final(self).queue_total_size == old(self).queue_total_size && final(effects)@
                    == old(effects)@
            }),
    {
        let d = self.pending_pull_intos[0];
        assert(old(self).pending_pull_intos@[0].pending_wf());
        if d.bytes_filled > 0 {
            effects.push(ReadableEffect::CloneBuffer { from: d.buffer, into: clone_into });
            self.readable_byte_stream_controller_enqueue_chunk_to_queue(clone_into, d.byte_offset, d.bytes_filled);
        }
        let _ = self.readable_byte_stream_controller_shift_pending_pull_into();
        assert(pending_wf(self.pending_pull_intos@)) by {
            assert forall|i: int| 0 <= i < self.pending_pull_intos@.len() implies (
            #[trigger] self.pending_pull_intos@[i]).pending_wf() by {
                assert(self.pending_pull_intos@[i] == old(self).pending_pull_intos@[i + 1]);
            }
        }
    }

    /// The enqueue-relevant state of the controller and the stream `s`.
    pub open spec fn byte_state(self, s: ReadableStreamView, effects: Seq<ReadableEffect>) -> ByteState {
        ByteState {
            queue: self.queue@,
            total: self.queue_total_size as int,
            pending: self.pending_pull_intos@,
            byob_request: self.byob_request,
            algorithms_cleared: self.algorithms_cleared,
            pulling: self.pulling,
            pull_again: self.pull_again,
            stream: s,
            effects,
        }
    }

    /// The first steps of ReadableByteStreamControllerEnqueue after the
    /// chunk's buffer was transferred: with a pending descriptor, the BYOB
    /// request is invalidated and the descriptor's buffer transferred, and a
    /// descriptor whose reader is gone hands its bytes to the queue (as the
    /// clone `clone_into`) and leaves.
    pub open spec fn enqueue_start(st: ByteState, clone_into: u64) -> ByteState {
        if st.pending.len() == 0 {
            st
        } else {
            let first = st.pending[0];
            let invalidate = match st.byob_request {
                Option::None => seq![],
                Option::Some(r) => seq![ReadableEffect::InvalidateByobRequest { request: r }],
            };
            let effects = st.effects + invalidate + seq![ReadableEffect::TransferBuffer { buffer: first.buffer }];
            if first.reader_type == PullIntoDescriptorReaderType::NoReader {
                if first.bytes_filled > 0 {
                    ByteState {
                        queue: st.queue.push(
                            ReadableByteStreamQueueEntry {
                                buffer: clone_into,
                                byte_offset: first.byte_offset,
                                byte_length: first.bytes_filled,
                            },
                        ),
                        total: st.total + first.bytes_filled,
                        pending: st.pending.drop_first(),
                        byob_request: Option::None,
                        effects: effects.push(ReadableEffect::CloneBuffer { from: first.buffer, into: clone_into }),
                        ..st
                    }
                } else {
                    ByteState { pending: st.pending.drop_first(), byob_request: Option::None, effects, ..st }
                }
            } else {
                ByteState { byob_request: Option::None, effects, ..st }
            }
        }
    }

    /// Where ReadableByteStreamControllerEnqueue puts the chunk: with a
    /// default reader, its waiting requests are served from the queue first
    /// and the chunk goes to the next one (the first descriptor leaving), or
    /// to the queue when none waits; with a BYOB reader, the chunk joins the
    /// queue and the pending descriptors are filled from it; without a
    /// reader, it joins the queue.
    pub open spec fn enqueue_route(self, st: ByteState, chunk: ArrayBufferView) -> ByteState {
        if st.stream.has_default_reader() {
            let r = self.serve_reads(
                st.stream,
                ReadServing {
                    queue: st.queue,
                    total: st.total,
                    requests: st.stream.read_requests,
                    pulling: st.pulling,
                    pull_again: st.pull_again,
                    closed: false,
                    effects: st.effects,
                },
            );
            let s1 = if r.closed {
                st.stream.closed()
            } else {
                st.stream.with_requests(r.requests)
            };
            let served = ByteState {
                queue: r.queue,
                total: r.total,
                algorithms_cleared: st.algorithms_cleared || r.closed,
                pulling: r.pulling,
                pull_again: r.pull_again,
                stream: s1,
                effects: r.effects,
                ..st
            };
            if s1.read_requests.len() == 0 {
                ByteState {
                    queue: r.queue.push(chunk_entry(chunk)),
                    total: r.total + chunk.byte_length,
                    ..served
                }
            } else {
                ByteState {
                    pending: if st.pending.len() > 0 {
                        st.pending.drop_first()
                    } else {
                        st.pending
                    },
                    stream: s1.with_requests(s1.read_requests.drop_first()),
                    effects: r.effects.push(s1.fulfill_effect(chunk_u8_view(chunk), false)),
                    ..served
                }
            }
        } else if st.stream.has_byob_reader() {
            let p = Self::serve_pull_intos(
                PullIntoServing {
                    queue: st.queue.push(chunk_entry(chunk)),
                    total: st.total + chunk.byte_length,
                    pending: st.pending,
                    stream: st.stream,
                    effects: st.effects,
                },
            );
            ByteState { queue: p.queue, total: p.total, pending: p.pending, stream: p.stream, effects: p.effects, ..st }
        } else {
            ByteState { queue: st.queue.push(chunk_entry(chunk)), total: st.total + chunk.byte_length, ..st }
        }
    }

    /// The last step of ReadableByteStreamControllerEnqueue: the controller
    /// pulls if needed.
    pub open spec fn enqueue_finish(self, st: ByteState) -> ByteState {
        let should = self.should_pull_at(st.stream, st.total);
        ByteState {
            pulling: st.pulling || should,
            pull_again: st.pull_again || (should && st.pulling),
            effects: st.effects + (if should && !st.pulling {
                seq![ReadableEffect::CallPull]
            } else {
                seq![]
            }),
            ..st
        }
    }

    /// ReadableByteStreamControllerEnqueue of `chunk` on a readable stream
    /// `s` whose controller can take it, from the steps `effects` on.
    pub open spec fn spec_enqueue(
        self,
        s: ReadableStreamView,
        chunk: ArrayBufferView,
        clone_into: u64,
        effects: Seq<ReadableEffect>,
    ) -> ByteState {
        let st = self.byte_state(s, effects.push(ReadableEffect::TransferBuffer { buffer: chunk.buffer }));
        self.enqueue_finish(self.enqueue_route(Self::enqueue_start(st, clone_into), chunk))
    }

    /// Serving reads depends on a controller only through its close request,
    /// its start and its high water mark.
    proof fn lemma_serve_reads_depends_on_settings(a: Self, b: Self, s: ReadableStreamView, st: ReadServing)
        requires
            a.close_requested == b.close_requested,
            a.started == b.started,
            a.strategy_hwm == b.strategy_hwm,
        ensures
            a.serve_reads(s, st) == b.serve_reads(s, st),
        decreases st.requests.len(),
    {
        if !(st.closed || st.requests.len() == 0 || st.total <= 0 || st.queue.len() == 0) {
            let entry = st.queue[0];
            let rest = st.requests.drop_first();
            let total = st.total - entry.byte_length;
            if !(total == 0 && a.close_requested) {
                let should = a.should_pull_at(s.with_requests(rest), total);
                let pull = if should && !st.pulling {
                    seq![ReadableEffect::CallPull]
                } else {
                    seq![]
                };
                Self::lemma_serve_reads_depends_on_settings(
                    a,
                    b,
                    s,
                    ReadServing {
                        queue: st.queue.drop_first(),
                        total,
                        requests: rest,
                        pulling: st.pulling || should,
                        pull_again: st.pull_again || (should && st.pulling),
                        closed: false,
                        effects: st.effects + pull + seq![entry_read(st.requests[0], entry)],
                    },
                );
            }
        }
    }

    /// The steps of ReadableByteStreamControllerEnqueue for a pending first
    /// descriptor (see `enqueue_start`).
    fn enqueue_pending_steps(&mut self, stream: &ReadableStream, clone_into: u64, effects: &mut Vec<ReadableEffect>)
        requires
            old(self).wf(),
            old(self).queue_total_size + old(self).first_pending_bytes() <= usize::MAX,
        ensures
            final(self).wf(),
            final(self).byte_state(stream@, final(effects)@) == Self::enqueue_start(
                old(self).byte_state(stream@, old(effects)@),
                clone_into,
            ),
            final(self).close_requested == old(self).close_requested,
            final(self).started == old(self).started,
            final(self).strategy_hwm == old(self).strategy_hwm,
            final(self).auto_allocate_chunk_size == old(self).auto_allocate_chunk_size,
            final(self).queue_total_size <= old(self).queue_total_size + old(self).first_pending_bytes(),
    {
        if self.pending_pull_intos.len() > 0 {
            let ghost st = old(self).byte_state(stream@, old(effects)@);
            self.invalidate_byob_request(effects);
            let first = self.pending_pull_intos[0];
            effects.push(ReadableEffect::TransferBuffer { buffer: first.buffer });
            let ghost e1 = effects@;
            assert(e1 =~= st.effects + old(self).invalidate_effects() + seq![
                ReadableEffect::TransferBuffer { buffer: first.buffer },
            ]);
            match first.reader_type {
                PullIntoDescriptorReaderType::NoReader => {
                    self.readable_byte_stream_enqueue_detached_pull_into_to_queue(clone_into, effects);
                },
                _ => {},
            }
            assert(self.byte_state(stream@, effects@) =~= Self::enqueue_start(st, clone_into));
        }
    }

    /// Where ReadableByteStreamControllerEnqueue puts the chunk (see `enqueue_route`).
    fn enqueue_route_chunk(&mut self, stream: &mut ReadableStream, chunk: ArrayBufferView, effects: &mut Vec<ReadableEffect>)
        requires
            old(stream)@.wf(),
            old(self).wf(),
            old(stream).state == ReadableStreamState::Readable,
            chunk.byte_length > 0,
            chunk.byte_offset + chunk.byte_length <= usize::MAX,
            old(self).queue_total_size + chunk.byte_length <= usize::MAX,
        ensures
            final(stream).disturbed == old(stream).disturbed,
            final(stream).byte_source == old(stream).byte_source,
            final(stream)@.wf(),
            final(self).wf(),
            final(stream).reader == old(stream).reader,
            final(self).byte_state(final(stream)@, final(effects)@) == old(self).enqueue_route(
                old(self).byte_state(old(stream)@, old(effects)@),
                chunk,
            ),
            final(self).close_requested == old(self).close_requested,
            final(self).started == old(self).started,
            final(self).strategy_hwm == old(self).strategy_hwm,
            final(self).auto_allocate_chunk_size == old(self).auto_allocate_chunk_size,
    {
        let ghost st = old(self).byte_state(old(stream)@, old(effects)@);
        if stream.readable_stream_has_default_reader() {
            self.readable_byte_stream_controller_process_read_requests_using_queue(stream, effects);
            let ghost r = old(self).serve_reads(old(stream)@, old(self).reads_start(old(stream)@, old(effects)@));
            assert(old(self).reads_start(old(stream)@, old(effects)@) == (ReadServing {
                queue: st.queue,
                total: st.total,
                requests: st.stream.read_requests,
                pulling: st.pulling,
                pull_again: st.pull_again,
                closed: false,
                effects: st.effects,
            }));
            if stream.read_requests.len() == 0 {
                self.readable_byte_stream_controller_enqueue_chunk_to_queue(
                    chunk.buffer,
                    chunk.byte_offset,
                    chunk.byte_length,
                );
                assert(self.byte_state(stream@, effects@) =~= old(self).enqueue_route(st, chunk));
            } else {
                if self.pending_pull_intos.len() > 0 {
                    let ghost before = self.pending_pull_intos@;
                    let _ = self.readable_byte_stream_controller_shift_pending_pull_into();
                    assert(pending_wf(self.pending_pull_intos@)) by {
                        let p = self.pending_pull_intos@;
                        assert forall|i: int| 0 <= i < p.len() implies (#[trigger] p[i]).pending_wf() by {
                            assert(p[i] == before[i + 1]);
                        }
                    }
                }
                stream.readable_stream_fulfill_read_request(
                    Chunk::View {
                        buffer: chunk.buffer,
                        byte_offset: chunk.byte_offset,
                        length: chunk.byte_length,
                        view: ViewType::Uint8Array,
                    },
                    false,
                    effects,
                );
                assert(self.byte_state(stream@, effects@) =~= old(self).enqueue_route(st, chunk));
            }
        } else if stream.readable_stream_has_byob_reader() {
            self.readable_byte_stream_controller_enqueue_chunk_to_queue(
                chunk.buffer,
                chunk.byte_offset,
                chunk.byte_length,
            );
            let ghost before = self.pull_intos_now(stream@, effects@);
            self.readable_byte_stream_controller_process_pull_into_descriptors_using_queue(stream, effects);
            assert(before == (PullIntoServing {
                queue: st.queue.push(chunk_entry(chunk)),
                total: st.total + chunk.byte_length,
                pending: st.pending,
                stream: st.stream,
                effects: st.effects,
            }));
            assert(self.byte_state(stream@, effects@) =~= old(self).enqueue_route(st, chunk));
        } else {
            self.readable_byte_stream_controller_enqueue_chunk_to_queue(
                chunk.buffer,
                chunk.byte_offset,
                chunk.byte_length,
            );
            assert(self.byte_state(stream@, effects@) =~= old(self).enqueue_route(st, chunk));
        }
    }

    /// ReadableByteStreamControllerEnqueue: the chunk's buffer is transferred;
    /// an orphaned first descriptor hands its bytes to the queue; the chunk
    /// then goes straight to a waiting default read request, or into the
    /// queue (from which BYOB descriptors are filled), and the controller
    /// pulls if needed. `chunk_detached` and `first_pending_detached` tell
    /// whether those buffers are detached; `clone_into` names the clone an
    /// orphaned descriptor may need.
    pub fn readable_byte_stream_controller_enqueue(
        &mut self,
        stream: &mut ReadableStream,
        chunk: ArrayBufferView,
        chunk_detached: bool,
        first_pending_detached: bool,
        clone_into: u64,
        effects: &mut Vec<ReadableEffect>,
    ) -> (r: Result<(), Reason>)
        requires
            old(stream)@.wf(),
            old(self).wf(),
            chunk.byte_length > 0,
            chunk.byte_offset + chunk.byte_length <= usize::MAX,
            old(self).queue_total_size + chunk.byte_length + old(self).first_pending_bytes() <= usize::MAX,
        ensures
            final(stream).disturbed == old(stream).disturbed,
            final(stream).byte_source == old(stream).byte_source,
            final(stream)@.wf(),
            final(self).wf(),
            final(stream).reader == old(stream).reader,
            final(self).close_requested == old(self).close_requested,
            final(self).started == old(self).started,
            final(self).strategy_hwm == old(self).strategy_hwm,
            final(self).auto_allocate_chunk_size == old(self).auto_allocate_chunk_size,
            old(self).close_requested || old(stream).state != ReadableStreamState::Readable ==> r is Ok
                && final(stream)@ == old(stream)@ && *final(self) == *old(self) && final(effects)@
                == old(effects)@,
            !old(self).close_requested && old(stream).state == ReadableStreamState::Readable ==> {
                &&& chunk_detached ==> r == Err::<(), Reason>(Reason::Error(StreamError::ChunkDetached))
                    && final(stream)@ == old(stream)@ && *final(self) == *old(self)
                    && final(effects)@ == old(effects)@
                &&& !chunk_detached && old(self).pending_pull_intos@.len() > 0 && first_pending_detached ==> r
                    == Err::<(), Reason>(Reason::Error(StreamError::PullIntoDetached)) && final(stream)@
                    == old(stream)@ && *final(self) == *old(self) && final(effects)@ == old(effects)@.push(
                    ReadableEffect::TransferBuffer { buffer: chunk.buffer },
                )
                &&& !chunk_detached && !(old(self).pending_pull_intos@.len() > 0 && first_pending_detached)
                    ==> r is Ok && final(self).byte_state(final(stream)@, final(effects)@) == old(self).spec_enqueue(
                    old(stream)@,
                    chunk,
                    clone_into,
                    old(effects)@,
                )
            },
    {
        if self.close_requested || stream.state != ReadableStreamState::Readable {
            return Ok(());
        }
        if chunk_detached {
            return Err(Reason::Error(StreamError::ChunkDetached));
        }
        effects.push(ReadableEffect::TransferBuffer { buffer: chunk.buffer });
        if self.pending_pull_intos.len() > 0 && first_pending_detached {
            return Err(Reason::Error(StreamError::PullIntoDetached));
        }
        let ghost st0 = self.byte_state(stream@, effects@);
        self.enqueue_pending_steps(stream, clone_into, effects);
        let ghost st1 = self.byte_state(stream@, effects@);
        let ghost mid = *self;
        assert(self.queue_total_size + chunk.byte_length <= usize::MAX);
        self.enqueue_route_chunk(stream, chunk, effects);
        let ghost st2 = self.byte_state(stream@, effects@);
        proof {
            if st1.stream.has_default_reader() {
                Self::lemma_serve_reads_depends_on_settings(
                    mid,
                    *old(self),
                    st1.stream,
                    ReadServing {
                        queue: st1.queue,
                        total: st1.total,
                        requests: st1.stream.read_requests,
                        pulling: st1.pulling,
                        pull_again: st1.pull_again,
                        closed: false,
                        effects: st1.effects,
                    },
                );
            }
        }
        assert(st2 == old(self).enqueue_route(st1, chunk));
        self.readable_byte_stream_controller_call_pull_if_needed(stream, effects);
        assert(self.byte_state(stream@, effects@) =~= old(self).enqueue_finish(st2));
        Ok(())
    }
}


impl ReadableStreamByteController {
    /// What ReadableByteStreamControllerPullInto does for the read of `view`
    /// for at least `min` elements, with the read-into request `request`, on
    /// the stream `s0` after the steps `e0`, given the transferred buffer
    /// (`transferred`): the controller becomes `c1`, the stream `s1`, and the
    /// steps `e1`.
    pub open spec fn pull_into_outcome(
        self,
        s0: ReadableStreamView,
        e0: Seq<ReadableEffect>,
        view: ArrayBufferView,
        min: usize,
        request: u64,
        transferred: Result<u64, Reason>,
        c1: Self,
        s1: ReadableStreamView,
        e1: Seq<ReadableEffect>,
    ) -> bool {
        &&& (transferred matches Err(e) ==> s1 == s0 && c1 == self
            && e1 == e0.push(ReadableEffect::ReadError { request, reason: e }))
        &&& (transferred matches Ok(buffer) ==> {
            let d = byob_descriptor(view, min as nat, buffer);
            let amount = fill_amount(self.queue_total_size as nat, d);
            let copies = e0 + copy_effects(self.queue@, amount.0, buffer, view.byte_offset as nat);
            let left = self.queue_total_size - amount.0;
            let fresh = self.pending_pull_intos@.len() == 0 && s0.state == ReadableStreamState::Readable;
            &&& self.pending_pull_intos@.len() > 0 ==> c1.pending_pull_intos@ == self.pending_pull_intos@.push(d) && s1 == s0.with_requests(
                s0.read_requests.push(request),
            ) && e1 == e0 && c1.queue@ == self.queue@ && c1.queue_total_size == self.queue_total_size
                && c1.algorithms_cleared == self.algorithms_cleared && c1.pulling == self.pulling
                && c1.pull_again == self.pull_again && c1.same_config(self)
            &&& self.pending_pull_intos@.len() == 0 && s0.state == ReadableStreamState::Closed
                ==> s1 == s0 && c1 == self && e1 == e0.push(
                ReadableEffect::ReadClose {
                    request,
                    closing_chunk: Some(
                        Chunk::View { buffer, byte_offset: view.byte_offset, length: 0, view: view.view_type },
                    ),
                },
            )
            &&& fresh && self.queue_total_size > 0 && amount.1 ==> {
                let read = ReadableEffect::ReadChunk { request, chunk: spec_filled_view(filled_by(d, amount.0)) };
                let transfer = ReadableEffect::TransferBuffer { buffer };
                &&& c1.queue@ == consume_queue(self.queue@, amount.0)
                &&& c1.queue_total_size == left
                &&& c1.pending_pull_intos@.len() == 0
                &&& c1.same_config(self)
                &&& left == 0 && self.close_requested ==> s1 == s0.closed()
                    && c1.algorithms_cleared && c1.pulling == self.pulling && c1.pull_again == self.pull_again
                    && e1 == copies + seq![
                    transfer,
                    ReadableEffect::ClearAlgorithms,
                ] + s0.close_effects() + seq![read]
                &&& !(left == 0 && self.close_requested) ==> {
                    let should = self.should_pull_at(s0, left);
                    &&& s1 == s0
                    &&& c1.algorithms_cleared == self.algorithms_cleared
                    &&& self.flags_after_pull(c1, should)
                    &&& e1 == copies + seq![transfer] + self.pull_effects(should) + seq![read]
                }
            }
            &&& fresh && self.queue_total_size > 0 && !amount.1 && self.close_requested ==> {
                let e = Reason::Error(StreamError::InsufficientBytes);
                &&& s1 == s0.errored(e)
                &&& c1.cleared_from(self)
                &&& e1 == copies + self.invalidate_effects() + seq![
                    ReadableEffect::ClearAlgorithms,
                ] + s0.error_effects(e) + seq![ReadableEffect::ReadError { request, reason: e }]
            }
            &&& fresh && !(self.queue_total_size > 0 && (amount.1 || self.close_requested)) ==> {
                let waiting = s0.with_requests(s0.read_requests.push(request));
                let should = self.should_pull_at(waiting, 0);
                &&& c1.pending_pull_intos@ == seq![filled_by(d, amount.0)]
                &&& c1.queue@ == consume_queue(self.queue@, amount.0)
                &&& c1.queue_total_size == 0
                &&& c1.same_config(self)
                &&& s1 == waiting
                &&& c1.algorithms_cleared == self.algorithms_cleared
                &&& self.flags_after_pull(c1, should)
                &&& e1 == copies + self.pull_effects(should)
            }
        })
    }

    /// ReadableByteStreamControllerPullInto, the read of a BYOB reader into
    /// `view` for at least `min` elements, after the host transferred the
    /// view's buffer (`transferred` names the new buffer, or holds the error
    /// of the transfer). Behind other pending reads the request waits; on a
    /// closed stream it closes with an empty view; with queued bytes it is
    /// filled and, once ready, completed; otherwise it waits and the
    /// controller pulls if needed.
    #[verifier::rlimit(50)]
    #[verifier::spinoff_prover]
    pub fn readable_byte_stream_controller_pull_into(
        &mut self,
        stream: &mut ReadableStream,
        view: ArrayBufferView,
        min: usize,
        request: u64,
        transferred: Result<u64, Reason>,
        effects: &mut Vec<ReadableEffect>,
    )
        requires
            old(stream)@.wf(),
            old(self).wf(),
            old(stream)@.has_byob_reader(),
            old(stream).state != ReadableStreamState::Errored,
            1 <= min,
            min * spec_element_size(view.view_type) <= view.byte_length,
            view.byte_length as nat % spec_element_size(view.view_type) == 0,
            view.byte_offset + view.byte_length <= usize::MAX,
        ensures
            final(stream).disturbed == old(stream).disturbed,
            final(stream).byte_source == old(stream).byte_source,
            final(stream)@.wf(),
            final(self).wf(),
            final(stream).reader == old(stream).reader,
            old(effects)@.is_prefix_of(final(effects)@),
            old(self).pull_into_outcome(old(stream)@, old(effects)@, view, min, request, transferred, *final(self), final(stream)@, final(effects)@),
    {
        let buffer = match transferred {
            Err(e) => {
                effects.push(ReadableEffect::ReadError { request, reason: e });
                return;
            },
            Ok(b) => b,
        };
        let element_size = view.view_type.element_size();
        let minimum_fill = min * element_size;
        let mut desc = PullIntoDescriptor {
            buffer,
            buffer_byte_length: view.buffer_byte_length,
            byte_offset: view.byte_offset,
            byte_length: view.byte_length,
            bytes_filled: 0,
            minimum_fill,
            element_size,
            view_type: view.view_type,
            reader_type: PullIntoDescriptorReaderType::Byob,
        };
        assert(minimum_fill % element_size == 0) by (nonlinear_arith)
            requires
                minimum_fill == min * element_size,
                element_size > 0,
        ;
        assert(minimum_fill >= 1) by (nonlinear_arith)
            requires
                minimum_fill == min * element_size,
                element_size > 0,
                min >= 1,
        ;
        assert(desc.pending_wf());
        if self.pending_pull_intos.len() > 0 {
            self.pending_pull_intos.push(desc);
            stream.readable_stream_add_read_into_request(request);
            assert(pending_wf(self.pending_pull_intos@)) by {
                let p = self.pending_pull_intos@;
                assert forall|i: int| 0 <= i < p.len() implies (#[trigger] p[i]).pending_wf() by {
                    if i < old(self).pending_pull_intos@.len() {
                        assert(p[i] == old(self).pending_pull_intos@[i]);
                    }
                }
            }
            return;
        }
        if stream.state == ReadableStreamState::Closed {
            effects.push(ReadableEffect::ReadClose {
                request,
                closing_chunk: Option::Some(
                    Chunk::View { buffer, byte_offset: view.byte_offset, length: 0, view: view.view_type },
                ),
            });
            return;
        }
        let ghost t0 = self.queue_total_size as nat;
        let ghost d0 = desc;
        if self.queue_total_size > 0 {
            let ready = fill_pull_into_descriptor_from_queue(
                &mut self.queue,
                &mut self.queue_total_size,
                &mut desc,
                effects,
            );
            if ready {
                let filled_view = convert_pull_into_descriptor(&desc, effects);
                let ghost e1 = effects@;
                self.readable_byte_stream_controller_handle_queue_drain(stream, effects);
                effects.push(ReadableEffect::ReadChunk { request, chunk: filled_view });
                proof {
                    lemma_prefix_trans(old(effects)@, e1, effects@);
                    let copies = old(effects)@ + copy_effects(old(self).queue@, fill_amount(t0, d0).0, buffer, view.byte_offset as nat);
                    let read = ReadableEffect::ReadChunk { request, chunk: filled_view };
                    let transfer = ReadableEffect::TransferBuffer { buffer };
                    if self.queue_total_size == 0 && self.close_requested {
                        assert(effects@ =~= copies + seq![transfer, ReadableEffect::ClearAlgorithms]
                            + old(stream)@.close_effects() + seq![read]);
                    } else {
                        let should = old(self).should_pull_at(old(stream)@, self.queue_total_size as int);
                        assert(effects@ =~= copies + seq![transfer] + old(self).pull_effects(should) + seq![read]);
                    }
                }
                return;
            }
            proof {
                lemma_fill_not_ready(t0, d0);
            }
            if self.close_requested {
                let e = Reason::Error(StreamError::InsufficientBytes);
                let ghost e3 = effects@;
                self.readable_byte_stream_controller_error(stream, e, effects);
                effects.push(ReadableEffect::ReadError { request, reason: e });
                assert(effects@ =~= e3 + old(self).invalidate_effects() + seq![ReadableEffect::ClearAlgorithms]
                    + old(stream)@.error_effects(e) + seq![ReadableEffect::ReadError { request, reason: e }]);
                return;
            }
        } else {
            assert(d0.bytes_filled == 0 && d0.minimum_fill >= 1);
            assert((0nat % (d0.element_size as nat)) == 0) by (nonlinear_arith)
                requires
                    d0.element_size > 0,
            ;
            assert(fill_amount(0, d0).0 == 0);
            assert(desc == filled_by(d0, 0));
        }
        let ghost e2 = effects@;
        self.pending_pull_intos.push(desc);
        assert(self.pending_pull_intos@ =~= seq![desc]);
        stream.readable_stream_add_read_into_request(request);
        self.readable_byte_stream_controller_call_pull_if_needed(stream, effects);
        proof {
            lemma_prefix_trans(old(effects)@, e2, effects@);
        }
    }

    /// The size of the buffer the host must allocate before the pull steps of
    /// a default reader: the auto-allocate chunk size, when nothing is queued.
    pub fn pull_steps_buffer_size(&self) -> (r: Option<usize>)
        ensures
            r == (if self.queue_total_size == 0 { self.auto_allocate_chunk_size } else { None }),
    {
        if self.queue_total_size == 0 {
            self.auto_allocate_chunk_size
        } else {
            Option::None
        }
    }

    /// What the pull steps of a byte controller do for the read request
    /// `request` of a default reader on the stream `s0`, after the steps
    /// `e0`, given the buffer the host allocated (`allocated`): the
    /// controller becomes `c1`, the stream `s1`, and the steps `e1`.
    pub open spec fn pull_steps_outcome(
        self,
        s0: ReadableStreamView,
        e0: Seq<ReadableEffect>,
        request: u64,
        allocated: Result<u64, Reason>,
        c1: Self,
        s1: ReadableStreamView,
        e1: Seq<ReadableEffect>,
    ) -> bool {
        &&& (self.queue_total_size > 0 ==> {
            let read = entry_read(request, self.queue@[0]);
            let left = self.queue_total_size - self.queue@[0].byte_length;
            &&& c1.queue@ == self.queue@.drop_first()
            &&& c1.queue_total_size == left
            &&& c1.pending_pull_intos@ == self.pending_pull_intos@
            &&& c1.same_config(self)
            &&& left == 0 && self.close_requested ==> s1 == s0.closed()
                && c1.algorithms_cleared && c1.pulling == self.pulling && c1.pull_again == self.pull_again
                && e1 == e0.push(
                ReadableEffect::ClearAlgorithms,
            ) + s0.close_effects() + seq![read]
            &&& !(left == 0 && self.close_requested) ==> {
                let should = self.should_pull_at(s0, left);
                &&& s1 == s0
                &&& c1.algorithms_cleared == self.algorithms_cleared
                &&& self.flags_after_pull(c1, should)
                &&& e1 == e0 + self.pull_effects(should) + seq![read]
            }
        })
        &&& (self.queue_total_size == 0 && self.auto_allocate_chunk_size is Some && allocated is Err
            ==> s1 == s0 && c1 == self && e1
            == e0.push(ReadableEffect::ReadError { request, reason: allocated->Err_0 }))
        &&& (self.queue_total_size == 0 && !(self.auto_allocate_chunk_size is Some && allocated is Err) ==> {
            let waiting = s0.with_requests(s0.read_requests.push(request));
            let should = self.should_pull_at(waiting, 0);
            &&& c1.pending_pull_intos@ == (if self.auto_allocate_chunk_size is Some {
                self.pending_pull_intos@.push(
                    auto_descriptor(self.auto_allocate_chunk_size->Some_0, allocated->Ok_0),
                )
            } else {
                self.pending_pull_intos@
            })
            &&& c1.queue@ == self.queue@
            &&& c1.queue_total_size == 0
            &&& c1.same_config(self)
            &&& s1 == waiting
            &&& c1.algorithms_cleared == self.algorithms_cleared
            &&& self.flags_after_pull(c1, should)
            &&& e1 == e0 + self.pull_effects(should)
        })
    }

    /// The pull steps of a byte controller for the read request `request` of a
    /// default reader: queued bytes answer it at once; otherwise, with an
    /// auto-allocate chunk size, a read into the buffer the host allocated
    /// (`allocated`, or the error of the allocation) is queued, and the
    /// request waits while the controller pulls if needed.
    pub fn pull_steps(
        &mut self,
        stream: &mut ReadableStream,
        request: u64,
        allocated: Result<u64, Reason>,
        effects: &mut Vec<ReadableEffect>,
    )
        requires
            old(stream)@.wf(),
            old(self).wf(),
            old(stream)@.has_default_reader(),
            old(stream).state == ReadableStreamState::Readable,
        ensures
            final(stream).disturbed == old(stream).disturbed,
            final(stream).byte_source == old(stream).byte_source,
            final(stream)@.wf(),
            final(self).wf(),
            final(stream).reader == old(stream).reader,
            old(effects)@.is_prefix_of(final(effects)@),
            old(self).pull_steps_outcome(old(stream)@, old(effects)@, request, allocated, *final(self), final(stream)@, final(effects)@),
    {
        if self.queue_total_size > 0 {
            self.readable_byte_stream_controller_fill_read_request_from_queue(stream, request, effects);
            return;
        }
        if let Option::Some(size) = self.auto_allocate_chunk_size {
            match allocated {
                Err(e) => {
                    effects.push(ReadableEffect::ReadError { request, reason: e });
                    return;
                },
                Ok(buffer) => {
                    let desc = PullIntoDescriptor {
                        buffer,
                        buffer_byte_length: size,
                        byte_offset: 0,
                        byte_length: size,
                        bytes_filled: 0,
                        minimum_fill: 1,
                        element_size: 1,
                        view_type: ViewType::Uint8Array,
                        reader_type: PullIntoDescriptorReaderType::Default,
                    };
                    self.pending_pull_intos.push(desc);
                    assert(pending_wf(self.pending_pull_intos@)) by {
                        let p = self.pending_pull_intos@;
                        assert forall|i: int| 0 <= i < p.len() implies (#[trigger] p[i]).pending_wf() by {
                            if i < old(self).pending_pull_intos@.len() {
                                assert(p[i] == old(self).pending_pull_intos@[i]);
                            }
                        }
                    }
                },
            }
        }
        stream.readable_stream_add_read_request(request);
        self.readable_byte_stream_controller_call_pull_if_needed(stream, effects);
    }
}


impl ReadableStreamByteController {
    /// The public `enqueue(chunk)` of a byte controller: an empty chunk or an
    /// empty buffer, a requested close and a stream that is not readable are
    /// refused; otherwise ReadableByteStreamControllerEnqueue runs.
    pub fn enqueue(
        &mut self,
        stream: &mut ReadableStream,
        chunk: ArrayBufferView,
        chunk_detached: bool,
        first_pending_detached: bool,
        clone_into: u64,
        effects: &mut Vec<ReadableEffect>,
    ) -> (r: Result<(), Reason>)
        requires
            old(stream)@.wf(),
            old(self).wf(),
            chunk.byte_offset + chunk.byte_length <= usize::MAX,
            old(self).queue_total_size + chunk.byte_length + old(self).first_pending_bytes() <= usize::MAX,
        ensures
            final(stream).disturbed == old(stream).disturbed,
            final(stream).byte_source == old(stream).byte_source,
            final(stream)@.wf(),
            final(self).wf(),
            final(self).close_requested == old(self).close_requested,
            final(self).started == old(self).started,
            final(self).strategy_hwm == old(self).strategy_hwm,
            final(self).auto_allocate_chunk_size == old(self).auto_allocate_chunk_size,
            chunk.byte_length == 0 ==> r == Err::<(), Reason>(Reason::Error(StreamError::ChunkZeroLength)),
            chunk.byte_length > 0 && chunk.buffer_byte_length == 0 ==> r == Err::<(), Reason>(
                Reason::Error(StreamError::ChunkBufferZeroLength),
            ),
            chunk.byte_length > 0 && chunk.buffer_byte_length > 0 && old(self).close_requested ==> r
                == Err::<(), Reason>(Reason::Error(StreamError::EnqueueCloseRequested)),
            chunk.byte_length > 0 && chunk.buffer_byte_length > 0 && !old(self).close_requested && old(stream).state != ReadableStreamState::Readable ==> r == Err::<(), Reason>(
                Reason::Error(StreamError::EnqueueNotReadable),
            ),
            r is Err && !(r == Err::<(), Reason>(Reason::Error(StreamError::PullIntoDetached))) ==> final(stream)@
                == old(stream)@ && *final(self) == *old(self) && final(effects)@ == old(effects)@,
            chunk.byte_length > 0 && chunk.buffer_byte_length > 0 && !old(self).close_requested && old(stream).state == ReadableStreamState::Readable ==> (r is Ok <==> !chunk_detached && !(old(self).pending_pull_intos@.len() > 0 && first_pending_detached)),
            chunk.byte_length > 0 && chunk.buffer_byte_length > 0 && !old(self).close_requested && old(stream).state
                == ReadableStreamState::Readable && chunk_detached ==> r == Err::<(), Reason>(
                Reason::Error(StreamError::ChunkDetached),
            ),
            chunk.byte_length > 0 && chunk.buffer_byte_length > 0 && !old(self).close_requested && old(stream).state
                == ReadableStreamState::Readable && !chunk_detached && old(self).pending_pull_intos@.len() > 0
                && first_pending_detached ==> r == Err::<(), Reason>(Reason::Error(StreamError::PullIntoDetached))
                && final(stream)@ == old(stream)@ && *final(self) == *old(self) && final(effects)@
                == old(effects)@.push(ReadableEffect::TransferBuffer { buffer: chunk.buffer }),
            r is Ok ==> final(self).byte_state(final(stream)@, final(effects)@) == old(self).spec_enqueue(
                old(stream)@,
                chunk,
                clone_into,
                old(effects)@,
            ),
    {
        if chunk.byte_length == 0 {
            return Err(Reason::Error(StreamError::ChunkZeroLength));
        }
        if chunk.buffer_byte_length == 0 {
            return Err(Reason::Error(StreamError::ChunkBufferZeroLength));
        }
        if self.close_requested {
            return Err(Reason::Error(StreamError::EnqueueCloseRequested));
        }
        if stream.state != ReadableStreamState::Readable {
            return Err(Reason::Error(StreamError::EnqueueNotReadable));
        }
        self.readable_byte_stream_controller_enqueue(
            stream,
            chunk,
            chunk_detached,
            first_pending_detached,
            clone_into,
            effects,
        )
    }
}

} // verus!
