//! A readable stream: its state, the reader that locks it and the requests
//! that reader has pending.
use vstd::prelude::*;
use crate::effect::{Chunk, Reason, ReadableEffect};
use crate::default_controller::ReadableStreamDefaultController;
use crate::byte_controller::ReadableStreamByteController;
use crate::byte_queue::{PullIntoDescriptor, PullIntoDescriptorReaderType};

verus! {

/// The state of a readable stream.
#[derive(Clone, Copy, PartialEq, Eq, Structural, Debug)]
pub enum ReadableStreamState {
    Readable,
    Closed,
    Errored,
}

/// The kind of reader that locks a stream.
#[derive(Clone, Copy, PartialEq, Eq, Structural, Debug)]
pub enum ReaderKind {
    DefaultReader,
    ByobReader,
}

/// The state a reader's closed promise starts in.
#[derive(Clone, Copy, PartialEq, Eq, Structural, Debug)]
pub enum ClosedPromise {
    /// A new pending promise.
    Pending,
    /// A promise resolved with undefined.
    Resolved,
    /// A promise rejected with the reason, marked handled.
    Rejected(Reason),
}

/// The part every reader shares: which reader it is, of which kind, and how
/// its closed promise started.
#[derive(Clone, Copy, PartialEq, Eq, Structural, Debug)]
pub struct ReadableStreamGenericReader {
    pub id: u64,
    pub kind: ReaderKind,
    pub closed_promise: ClosedPromise,
}

/// A readable stream. `read_requests` are the pending read requests (for a
/// default reader) or read-into requests (for a BYOB reader) of its reader,
/// oldest first; `byte_source` tells whether its controller is a byte
/// controller.
pub struct ReadableStream {
    pub state: ReadableStreamState,
    pub disturbed: bool,
    pub stored_error: Option<Reason>,
    pub reader: Option<ReadableStreamGenericReader>,
    pub read_requests: Vec<u64>,
    pub byte_source: bool,
}

/// The mathematical value of a readable stream.
pub struct ReadableStreamView {
    pub state: ReadableStreamState,
    pub disturbed: bool,
    pub stored_error: Option<Reason>,
    pub reader: Option<ReadableStreamGenericReader>,
    pub read_requests: Seq<u64>,
    pub byte_source: bool,
}

impl View for ReadableStream {
    type V = ReadableStreamView;

    open spec fn view(&self) -> ReadableStreamView {
        ReadableStreamView {
            state: self.state,
            disturbed: self.disturbed,
            stored_error: self.stored_error,
            reader: self.reader,
            read_requests: self.read_requests@,
            byte_source: self.byte_source,
        }
    }
}

/// The controller of a readable stream.
pub enum ReadableStreamController {
    ReadableStreamDefaultController(ReadableStreamDefaultController),
    ReadableStreamByteController(ReadableStreamByteController),
}

impl ReadableStreamController {
    /// A controller fits a stream when it is of the kind the stream was made with.
    pub open spec fn fits(self, stream: ReadableStreamView) -> bool {
        stream.byte_source == (self is ReadableStreamByteController)
            && (self matches ReadableStreamController::ReadableStreamByteController(c) ==> c.wf())
    }
}

/// What a cancel resolves to.
#[derive(Clone, Copy, PartialEq, Eq, Structural, Debug)]
pub enum CancelOutcome {
    /// A promise resolved with undefined.
    Resolved,
    /// A promise rejected with the reason.
    Rejected(Reason),
    /// The promise of the cancel algorithm, reacted to with a step returning undefined.
    FromCancelAlgorithm,
}

/// The close steps of each request, in order.
pub open spec fn close_request_effects(requests: Seq<u64>) -> Seq<ReadableEffect> {
    requests.map_values(|r: u64| ReadableEffect::ReadClose { request: r, closing_chunk: Option::None })
}

/// The error steps of each request with `e`, in order.
pub open spec fn error_request_effects(requests: Seq<u64>, e: Reason) -> Seq<ReadableEffect> {
    requests.map_values(|r: u64| ReadableEffect::ReadError { request: r, reason: e })
}

impl ReadableStreamView {
    /// A stream without a reader has no pending requests, and a stream has a
    /// stored error exactly when it is errored.
    pub open spec fn wf(self) -> bool {
        &&& (self.reader is None ==> self.read_requests.len() == 0)
        &&& (self.state == ReadableStreamState::Errored <==> self.stored_error is Some)
        &&& (self.has_byob_reader() ==> self.byte_source)
    }

    /// The stream's reader, if any, is a default reader.
    pub open spec fn has_default_reader(self) -> bool {
        self.reader matches Some(r) && r.kind == ReaderKind::DefaultReader
    }

    /// The stream's reader, if any, is a BYOB reader.
    pub open spec fn has_byob_reader(self) -> bool {
        self.reader matches Some(r) && r.kind == ReaderKind::ByobReader
    }

    /// The stream with `requests` as its pending requests.
    pub open spec fn with_requests(self, requests: Seq<u64>) -> Self {
        ReadableStreamView { read_requests: requests, ..self }
    }

    /// The step with which the oldest read request of a default reader is
    /// fulfilled: its close steps when `done`, else its chunk steps.
    pub open spec fn fulfill_effect(self, chunk: Chunk, done: bool) -> ReadableEffect {
        if done {
            ReadableEffect::ReadClose { request: self.read_requests[0], closing_chunk: Option::None }
        } else {
            ReadableEffect::ReadChunk { request: self.read_requests[0], chunk }
        }
    }

    /// The step with which the oldest read-into request of a BYOB reader is
    /// fulfilled: its close steps given the chunk when `done`, else its chunk steps.
    pub open spec fn fulfill_into_effect(self, chunk: Chunk, done: bool) -> ReadableEffect {
        if done {
            ReadableEffect::ReadClose { request: self.read_requests[0], closing_chunk: Option::Some(chunk) }
        } else {
            ReadableEffect::ReadChunk { request: self.read_requests[0], chunk }
        }
    }

    /// The stream after ReadableStreamClose: closed, and a default reader's
    /// requests gone.
    pub open spec fn closed(self) -> Self {
        ReadableStreamView {
            state: ReadableStreamState::Closed,
            read_requests: if self.has_default_reader() { Seq::empty() } else { self.read_requests },
            ..self
        }
    }

    /// The steps ReadableStreamClose hands to the host.
    pub open spec fn close_effects(self) -> Seq<ReadableEffect> {
        match self.reader {
            Option::None => seq![],
            Option::Some(r) => match r.kind {
                ReaderKind::DefaultReader => seq![ReadableEffect::ResolveClosed { reader: r.id }]
                    + close_request_effects(self.read_requests),
                ReaderKind::ByobReader => seq![ReadableEffect::ResolveClosed { reader: r.id }],
            },
        }
    }

    /// The stream after ReadableStreamError with `e`.
    pub open spec fn errored(self, e: Reason) -> Self {
        ReadableStreamView {
            state: ReadableStreamState::Errored,
            stored_error: Option::Some(e),
            read_requests: Seq::empty(),
            ..self
        }
    }

    /// The steps ReadableStreamError hands to the host.
    pub open spec fn error_effects(self, e: Reason) -> Seq<ReadableEffect> {
        match self.reader {
            Option::None => seq![],
            Option::Some(r) => seq![ReadableEffect::RejectClosed {
                reader: r.id,
                reason: e,
            }] + error_request_effects(self.read_requests, e),
        }
    }

    /// The stream after the closing part of ReadableStreamCancel: disturbed,
    /// closed, and without pending requests.
    pub open spec fn canceled(self) -> Self {
        ReadableStreamView {
            state: ReadableStreamState::Closed,
            disturbed: true,
            read_requests: Seq::empty(),
            ..self
        }
    }

    /// The steps the closing part of ReadableStreamCancel hands to the host:
    /// those of the close, then the close steps of a BYOB reader's requests.
    pub open spec fn cancel_close_effects(self) -> Seq<ReadableEffect> {
        if self.has_byob_reader() {
            self.close_effects() + close_request_effects(self.read_requests)
        } else {
            self.close_effects()
        }
    }
}

impl ReadableStreamController {
    /// The steps the cancel steps of this controller hand to the host.
    pub open spec fn cancel_effects(self, reason: Reason) -> Seq<ReadableEffect> {
        match self {
            ReadableStreamController::ReadableStreamDefaultController(_) => seq![
                ReadableEffect::QueueReset,
                ReadableEffect::CallCancel { reason },
                ReadableEffect::ClearAlgorithms,
            ],
            ReadableStreamController::ReadableStreamByteController(c) => c.invalidate_effects() + seq![
                ReadableEffect::CallCancel { reason },
                ReadableEffect::ClearAlgorithms,
            ],
        }
    }

    /// After its release steps a default controller is unchanged, and a byte
    /// controller keeps only its oldest pending descriptor, now waited for by
    /// no reader; the rest of its state is that of `before`.
    pub open spec fn released_from(self, before: Self) -> bool {
        match (self, before) {
            (
                ReadableStreamController::ReadableStreamDefaultController(c),
                ReadableStreamController::ReadableStreamDefaultController(b),
            ) => c == b,
            (
                ReadableStreamController::ReadableStreamByteController(c),
                ReadableStreamController::ReadableStreamByteController(b),
            ) => {
                &&& b.pending_pull_intos@.len() == 0 ==> c.pending_pull_intos@.len() == 0
                &&& b.pending_pull_intos@.len() > 0 ==> c.pending_pull_intos@ == seq![
                    PullIntoDescriptor {
                        reader_type: PullIntoDescriptorReaderType::NoReader,
                        ..b.pending_pull_intos@[0]
                    },
                ]
                &&& c.queue@ == b.queue@
                &&& c.queue_total_size == b.queue_total_size
                &&& c.byob_request == b.byob_request
                &&& c.algorithms_cleared == b.algorithms_cleared
                &&& c.close_requested == b.close_requested
                &&& c.started == b.started
                &&& c.pulling == b.pulling
                &&& c.pull_again == b.pull_again
                &&& c.strategy_hwm == b.strategy_hwm
                &&& c.auto_allocate_chunk_size == b.auto_allocate_chunk_size
            },
            _ => false,
        }
    }

    /// After its cancel steps a controller holds nothing and has no
    /// algorithms; the rest of its state is that of `before`.
    pub open spec fn canceled_from(self, before: Self) -> bool {
        match (self, before) {
            (
                ReadableStreamController::ReadableStreamDefaultController(c),
                ReadableStreamController::ReadableStreamDefaultController(b),
            ) => {
                &&& c.queue@.len() == 0
                &&& c.algorithms_cleared
                &&& c.close_requested == b.close_requested
                &&& c.started == b.started
                &&& c.pulling == b.pulling
                &&& c.pull_again == b.pull_again
            },
            (
                ReadableStreamController::ReadableStreamByteController(c),
                ReadableStreamController::ReadableStreamByteController(b),
            ) => {
                &&& c.queue@.len() == 0
                &&& c.queue_total_size == 0
                &&& c.pending_pull_intos@.len() == 0
                &&& c.byob_request is None
                &&& c.algorithms_cleared
                &&& c.close_requested == b.close_requested
                &&& c.started == b.started
                &&& c.pulling == b.pulling
                &&& c.pull_again == b.pull_again
                &&& c.strategy_hwm == b.strategy_hwm
                &&& c.auto_allocate_chunk_size == b.auto_allocate_chunk_size
            },
            _ => false,
        }
    }
}

impl ReadableStream {
    /// InitializeReadableStream: readable, undisturbed, without reader.
    pub fn new(byte_source: bool) -> (s: Self)
        ensures
            s@.wf(),
            s.state == ReadableStreamState::Readable,
            !s.disturbed,
            s.stored_error is None,
            s.reader is None,
            s.read_requests@.len() == 0,
            s.byte_source == byte_source,
    {
        ReadableStream {
            state: ReadableStreamState::Readable,
            disturbed: false,
            stored_error: Option::None,
            reader: Option::None,
            read_requests: Vec::new(),
            byte_source,
        }
    }

    /// IsReadableStreamLocked: the stream has a reader.
    pub fn is_readable_stream_locked(&self) -> (r: bool)
        ensures
            r == (self.reader is Some),
    {
        self.reader.is_some()
    }

    /// ReadableStreamHasDefaultReader.
    pub fn readable_stream_has_default_reader(&self) -> (r: bool)
        ensures
            r == self@.has_default_reader(),
    {
        match self.reader {
            Option::None => false,
            Option::Some(r) => match r.kind {
                ReaderKind::DefaultReader => true,
                ReaderKind::ByobReader => false,
            },
        }
    }

    /// ReadableStreamHasBYOBReader.
    pub fn readable_stream_has_byob_reader(&self) -> (r: bool)
        ensures
            r == self@.has_byob_reader(),
    {
        match self.reader {
            Option::None => false,
            Option::Some(r) => match r.kind {
                ReaderKind::DefaultReader => false,
                ReaderKind::ByobReader => true,
            },
        }
    }

    /// ReadableStreamGetNumReadRequests, for a stream with a default reader.
    pub fn readable_stream_get_num_read_requests(&self) -> (n: usize)
        requires
            self@.has_default_reader(),
        ensures
            n == self.read_requests@.len(),
    {
        self.read_requests.len()
    }

    /// ReadableStreamGetNumReadIntoRequests, for a stream with a BYOB reader.
    pub fn readable_stream_get_num_read_into_requests(&self) -> (n: usize)
        requires
            self@.has_byob_reader(),
        ensures
            n == self.read_requests@.len(),
    {
        self.read_requests.len()
    }

    /// ReadableStreamAddReadRequest: the request waits behind the others.
    pub fn readable_stream_add_read_request(&mut self, request: u64)
        requires
            old(self)@.has_default_reader(),
        ensures
            final(self)@ == old(self)@.with_requests(old(self).read_requests@.push(request)),
    {
        self.read_requests.push(request);
    }

    /// ReadableStreamAddReadIntoRequest: the request waits behind the others.
    pub fn readable_stream_add_read_into_request(&mut self, request: u64)
        requires
            old(self)@.has_byob_reader(),
        ensures
            final(self)@ == old(self)@.with_requests(old(self).read_requests@.push(request)),
    {
        self.read_requests.push(request);
    }

    /// ReadableStreamFulfillReadRequest: the oldest read request leaves the
    /// reader and is completed with `chunk`, or closed when `done`.
    pub fn readable_stream_fulfill_read_request(
        &mut self,
        chunk: Chunk,
        done: bool,
        effects: &mut Vec<ReadableEffect>,
    )
        requires
            old(self)@.wf(),
            old(self)@.has_default_reader(),
            old(self).read_requests@.len() > 0,
        ensures
            final(self)@ == old(self)@.with_requests(old(self).read_requests@.drop_first()),
            final(self)@.wf(),
            final(effects)@ == old(effects)@.push(old(self)@.fulfill_effect(chunk, done)),
    {
        let request = self.read_requests.remove(0);
        if done {
            effects.push(ReadableEffect::ReadClose { request, closing_chunk: Option::None });
        } else {
            effects.push(ReadableEffect::ReadChunk { request, chunk });
        }
    }

    /// ReadableStreamFulfillReadIntoRequest: the oldest read-into request
    /// leaves the reader and is completed with `chunk`, as its last chunk when `done`.
    pub fn readable_stream_fulfill_read_into_request(
        &mut self,
        chunk: Chunk,
        done: bool,
        effects: &mut Vec<ReadableEffect>,
    )
        requires
            old(self)@.wf(),
            old(self)@.has_byob_reader(),
            old(self).read_requests@.len() > 0,
        ensures
            final(self)@ == old(self)@.with_requests(old(self).read_requests@.drop_first()),
            final(self)@.wf(),
            final(effects)@ == old(effects)@.push(old(self)@.fulfill_into_effect(chunk, done)),
    {
        let request = self.read_requests.remove(0);
        if done {
            effects.push(ReadableEffect::ReadClose { request, closing_chunk: Option::Some(chunk) });
        } else {
            effects.push(ReadableEffect::ReadChunk { request, chunk });
        }
    }

    /// Hands the close steps of every pending request to the host, in order,
    /// and empties the list.
    fn close_read_requests(&mut self, effects: &mut Vec<ReadableEffect>)
        ensures
            final(self)@ == old(self)@.with_requests(Seq::empty()),
            final(effects)@ == old(effects)@ + close_request_effects(old(self).read_requests@),
    {
        let ghost e1 = effects@;
        let ghost requests = self.read_requests@;
        let mut i: usize = 0;
        while i < self.read_requests.len()
            invariant
                i <= self.read_requests@.len(),
                self.read_requests@ == requests,
                effects@ == e1 + close_request_effects(requests.take(i as int)),
            decreases self.read_requests@.len() - i,
        {
            let request = self.read_requests[i];
            effects.push(ReadableEffect::ReadClose { request, closing_chunk: Option::None });
            assert(requests.take(i + 1) =~= requests.take(i as int).push(request));
            assert(close_request_effects(requests.take(i + 1)) =~= close_request_effects(
                requests.take(i as int),
            ).push(ReadableEffect::ReadClose { request, closing_chunk: Option::None }));
            i = i + 1;
        }
        assert(requests.take(i as int) =~= requests);
        self.read_requests.clear();
        assert(self@ =~= old(self)@.with_requests(Seq::empty()));
    }

    /// ReadableStreamClose: the stream becomes closed; its reader's closed
    /// promise resolves and a default reader's read requests are closed.
    pub fn readable_stream_close(&mut self, effects: &mut Vec<ReadableEffect>)
        requires
            old(self)@.wf(),
            old(self).state != ReadableStreamState::Errored,
        ensures
            final(self)@ == old(self)@.closed(),
            final(self)@.wf(),
            final(effects)@ == old(effects)@ + old(self)@.close_effects(),
    {
        self.state = ReadableStreamState::Closed;
        match self.reader {
            Option::None => {
                assert(effects@ =~= old(effects)@ + old(self)@.close_effects());
            },
            Option::Some(r) => {
                effects.push(ReadableEffect::ResolveClosed { reader: r.id });
                match r.kind {
                    ReaderKind::DefaultReader => {
                        self.close_read_requests(effects);
                        assert(effects@ =~= old(effects)@ + old(self)@.close_effects());
                    },
                    ReaderKind::ByobReader => {
                        assert(effects@ =~= old(effects)@ + old(self)@.close_effects());
                    },
                }
            },
        }
        assert(self@ =~= old(self)@.closed());
    }

    /// ReadableStreamDefaultReaderErrorReadRequests (and its BYOB
    /// counterpart): every pending request is errored with `e` and the list emptied.
    pub fn error_read_requests(&mut self, e: Reason, effects: &mut Vec<ReadableEffect>)
        ensures
            final(self)@ == old(self)@.with_requests(Seq::empty()),
            final(effects)@ == old(effects)@ + error_request_effects(old(self).read_requests@, e),
    {
        let ghost e1 = effects@;
        let ghost requests = self.read_requests@;
        let mut i: usize = 0;
        while i < self.read_requests.len()
            invariant
                i <= self.read_requests@.len(),
                self.read_requests@ == requests,
                effects@ == e1 + error_request_effects(requests.take(i as int), e),
            decreases self.read_requests@.len() - i,
        {
            let request = self.read_requests[i];
            effects.push(ReadableEffect::ReadError { request, reason: e });
            assert(requests.take(i + 1) =~= requests.take(i as int).push(request));
            assert(error_request_effects(requests.take(i + 1), e) =~= error_request_effects(
                requests.take(i as int),
                e,
            ).push(ReadableEffect::ReadError { request, reason: e }));
            i = i + 1;
        }
        assert(requests.take(i as int) =~= requests);
        self.read_requests.clear();
        assert(self@ =~= old(self)@.with_requests(Seq::empty()));
    }

    /// ReadableStreamError: the stream becomes errored with `e`; its reader's
    /// closed promise is rejected and every pending request errored.
    pub fn readable_stream_error(&mut self, e: Reason, effects: &mut Vec<ReadableEffect>)
        requires
            old(self)@.wf(),
        ensures
            final(self)@ == old(self)@.errored(e),
            final(self)@.wf(),
            final(effects)@ == old(effects)@ + old(self)@.error_effects(e),
    {
        self.state = ReadableStreamState::Errored;
        self.stored_error = Option::Some(e);
        match self.reader {
            Option::None => {
                assert(effects@ =~= old(effects)@ + old(self)@.error_effects(e));
            },
            Option::Some(r) => {
                effects.push(ReadableEffect::RejectClosed { reader: r.id, reason: e });
                self.error_read_requests(e, effects);
                assert(effects@ =~= old(effects)@ + old(self)@.error_effects(e));
            },
        }
        assert(self.read_requests@ =~= Seq::<u64>::empty());
        assert(self@ =~= old(self)@.errored(e));
    }

    /// ReadableStreamCancel: the stream is disturbed; a closed stream cancels
    /// to undefined, an errored one to its stored error; a readable one is
    /// closed, its BYOB requests closed with undefined, and its controller's
    /// cancel steps performed with `reason`.
    pub fn readable_stream_cancel(
        &mut self,
        controller: &mut ReadableStreamController,
        reason: Reason,
        effects: &mut Vec<ReadableEffect>,
    ) -> (outcome: CancelOutcome)
        requires
            old(self)@.wf(),
            old(controller).fits(old(self)@),
        ensures
            final(self)@.wf(),
            final(controller).fits(final(self)@),
            old(self).state == ReadableStreamState::Closed ==> outcome == CancelOutcome::Resolved
                && final(self)@ == (ReadableStreamView { disturbed: true, ..old(self)@ })
                && final(effects)@ == old(effects)@ && *final(controller) == *old(controller),
            old(self).state == ReadableStreamState::Errored ==> outcome == CancelOutcome::Rejected(
                old(self).stored_error->Some_0,
            ) && final(self)@ == (ReadableStreamView { disturbed: true, ..old(self)@ })
                && final(effects)@ == old(effects)@ && *final(controller) == *old(controller),
            old(self).state == ReadableStreamState::Readable ==> {
                &&& outcome == CancelOutcome::FromCancelAlgorithm
                &&& final(self)@ == old(self)@.canceled()
                &&& final(controller).canceled_from(*old(controller))
                &&& final(effects)@ == old(effects)@ + old(self)@.cancel_close_effects()
                    + old(controller).cancel_effects(reason)
            },
    {
        self.disturbed = true;
        match self.state {
            ReadableStreamState::Closed => CancelOutcome::Resolved,
            ReadableStreamState::Errored => {
                let e = match self.stored_error {
                    Option::Some(e) => e,
                    Option::None => Reason::Undefined,
                };
                CancelOutcome::Rejected(e)
            },
            ReadableStreamState::Readable => {
                let byob = self.readable_stream_has_byob_reader();
                self.readable_stream_close(effects);
                if byob {
                    self.close_read_requests(effects);
                }
                let ghost e2 = effects@;
                assert(e2 =~= old(effects)@ + old(self)@.cancel_close_effects());
                match controller {
                    ReadableStreamController::ReadableStreamDefaultController(c) => {
                        c.cancel_steps(reason, effects);
                    },
                    ReadableStreamController::ReadableStreamByteController(c) => {
                        c.cancel_steps(reason, effects);
                    },
                }
                assert(self.read_requests@ =~= Seq::<u64>::empty());
                assert(self@ =~= old(self)@.canceled());
                assert(effects@ =~= e2 + old(controller).cancel_effects(reason));
                CancelOutcome::FromCancelAlgorithm
            },
        }
    }
}

} // verus!
