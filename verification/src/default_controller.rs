//! The default controller of a readable stream: a queue of script values whose
//! sizes the host keeps, and the flags that drive pulling from the source.
use vstd::prelude::*;
use crate::effect::{Chunk, Reason, ReadableEffect, StreamError};
use crate::readable::{ReadableStream, ReadableStreamView, ReadableStreamState, ReaderKind};

verus! {

/// A queued value and the handle of the size its strategy gave it.
#[derive(Clone, Copy, PartialEq, Eq, Structural, Debug)]
pub struct ValueWithSize {
    pub value: u64,
    pub size: u64,
}

/// The state of a default controller. Sizes are numbers of the host; the
/// queue holds their handles, and the host is told when values leave it.
pub struct ReadableStreamDefaultController {
    pub close_requested: bool,
    pub pull_again: bool,
    pub pulling: bool,
    pub started: bool,
    pub algorithms_cleared: bool,
    pub queue: Vec<ValueWithSize>,
}

/// What an enqueue did, or still needs from the host.
#[derive(Clone, Copy, PartialEq, Eq, Structural, Debug)]
pub enum EnqueueRoute {
    /// The controller cannot enqueue; nothing happened.
    Ignored,
    /// The chunk went straight to a waiting read request.
    Fulfilled,
    /// The host must run the size algorithm on the chunk and report its result.
    NeedsSize,
}

impl ReadableStreamDefaultController {
    /// The controller right after SetUpReadableStreamDefaultController.
    pub fn new() -> (c: Self)
        ensures
            !c.close_requested && !c.pull_again && !c.pulling && !c.started,
            !c.algorithms_cleared,
            c.queue@.len() == 0,
    {
        ReadableStreamDefaultController {
            close_requested: false,
            pull_again: false,
            pulling: false,
            started: false,
            algorithms_cleared: false,
            queue: Vec::new(),
        }
    }

    /// ReadableStreamDefaultControllerCanCloseOrEnqueue.
    pub open spec fn spec_can_close_or_enqueue(self, stream: ReadableStreamView) -> bool {
        !self.close_requested && stream.state == ReadableStreamState::Readable
    }

    /// True when no close was requested and the stream is readable.
    pub fn readable_stream_default_controller_can_close_or_enqueue(&self, stream: &ReadableStream) -> (r: bool)
        ensures
            r == self.spec_can_close_or_enqueue(stream@),
    {
        !self.close_requested && stream.state == ReadableStreamState::Readable
    }

    /// ReadableStreamDefaultControllerShouldCallPull, given whether the desired
    /// size (a number of the host) is positive.
    pub open spec fn spec_should_call_pull(self, stream: ReadableStreamView, desired_size_positive: bool) -> bool {
        &&& self.spec_can_close_or_enqueue(stream)
        &&& self.started
        &&& ((stream.reader is Some && stream.read_requests.len() > 0) || desired_size_positive)
    }

    /// Whether the source should be pulled: the controller can enqueue, has
    /// started, and a reader waits or the desired size is positive.
    pub fn readable_stream_default_controller_should_call_pull(
        &self,
        stream: &ReadableStream,
        desired_size_positive: bool,
    ) -> (r: bool)
        requires
            stream@.wf(),
        ensures
            r == self.spec_should_call_pull(stream@, desired_size_positive),
    {
        if !self.readable_stream_default_controller_can_close_or_enqueue(stream) {
            return false;
        }
        if !self.started {
            return false;
        }
        if stream.is_readable_stream_locked() && stream.read_requests.len() > 0 {
            return true;
        }
        desired_size_positive
    }

    /// ReadableStreamDefaultControllerCallPullIfNeeded: pulls when it should,
    /// or asks for one more pull once the running one settles.
    pub fn readable_stream_default_controller_call_pull_if_needed(
        &mut self,
        stream: &ReadableStream,
        desired_size_positive: bool,
        effects: &mut Vec<ReadableEffect>,
    )
        requires
            stream@.wf(),
        ensures
            ({
                let should = old(self).spec_should_call_pull(stream@, desired_size_positive);
                &&& !should ==> *final(self) == *old(self) && final(effects)@ == old(effects)@
                &&& should && old(self).pulling ==> final(self).pull_again && final(self).pulling
                    && final(effects)@ == old(effects)@
                &&& should && !old(self).pulling ==> final(self).pulling && final(self).pull_again
                    == old(self).pull_again && final(effects)@ == old(effects)@.push(
                    ReadableEffect::CallPull,
                )
            }),
            final(self).queue@ == old(self).queue@,
            final(self).close_requested == old(self).close_requested,
            final(self).started == old(self).started,
            final(self).algorithms_cleared == old(self).algorithms_cleared,
    {
        if !self.readable_stream_default_controller_should_call_pull(stream, desired_size_positive) {
            return;
        }
        if self.pulling {
            self.pull_again = true;
            return;
        }
        self.pulling = true;
        effects.push(ReadableEffect::CallPull);
    }

    /// Upon fulfillment of the pull promise: pulling ends, and a requested
    /// further pull is asked of the host (which then calls
    /// `readable_stream_default_controller_call_pull_if_needed`).
    pub fn pull_fulfilled(&mut self, effects: &mut Vec<ReadableEffect>) -> (pull_again: bool)
        ensures
            pull_again == old(self).pull_again,
            !final(self).pulling,
            !final(self).pull_again,
            final(self).queue@ == old(self).queue@,
            final(self).close_requested == old(self).close_requested,
            final(self).started == old(self).started,
            final(self).algorithms_cleared == old(self).algorithms_cleared,
            final(effects)@ == old(effects)@,
    {
        self.pulling = false;
        if self.pull_again {
            self.pull_again = false;
            true
        } else {
            false
        }
    }

    /// Upon fulfillment of the start promise: the controller has started.
    pub fn start_fulfilled(&mut self)
        ensures
            final(self).started,
            final(self).queue@ == old(self).queue@,
            final(self).close_requested == old(self).close_requested,
            final(self).pulling == old(self).pulling,
            final(self).pull_again == old(self).pull_again,
            final(self).algorithms_cleared == old(self).algorithms_cleared,
    {
        self.started = true;
    }

    /// ResetQueue and ReadableStreamDefaultControllerClearAlgorithms, as
    /// performed together by error and cancel.
    fn reset_queue(&mut self, effects: &mut Vec<ReadableEffect>)
        ensures
            final(self).queue@.len() == 0,
            final(self).close_requested == old(self).close_requested,
            final(self).pulling == old(self).pulling,
            final(self).pull_again == old(self).pull_again,
            final(self).started == old(self).started,
            final(self).algorithms_cleared == old(self).algorithms_cleared,
            final(effects)@ == old(effects)@.push(ReadableEffect::QueueReset),
    {
        self.queue.clear();
        effects.push(ReadableEffect::QueueReset);
    }

    /// Drops the pull, cancel and size algorithms.
    fn clear_algorithms(&mut self, effects: &mut Vec<ReadableEffect>)
        ensures
            final(self).algorithms_cleared,
            final(self).queue@ == old(self).queue@,
            final(self).close_requested == old(self).close_requested,
            final(self).pulling == old(self).pulling,
            final(self).pull_again == old(self).pull_again,
            final(self).started == old(self).started,
            final(effects)@ == old(effects)@.push(ReadableEffect::ClearAlgorithms),
    {
        self.algorithms_cleared = true;
        effects.push(ReadableEffect::ClearAlgorithms);
    }

    /// ReadableStreamDefaultControllerError: when the stream is readable, the
    /// queue is emptied, the algorithms dropped and the stream errored with `e`.
    pub fn readable_stream_default_controller_error(
        &mut self,
        stream: &mut ReadableStream,
        e: Reason,
        effects: &mut Vec<ReadableEffect>,
    )
        requires
            old(stream)@.wf(),
        ensures
            final(stream)@.wf(),
            old(stream).state != ReadableStreamState::Readable ==> final(stream)@ == old(stream)@
                && *final(self) == *old(self) && final(effects)@ == old(effects)@,
            old(stream).state == ReadableStreamState::Readable ==> {
                &&& final(self).queue@.len() == 0
                &&& final(self).algorithms_cleared
                &&& final(self).close_requested == old(self).close_requested
                &&& final(self).started == old(self).started
                &&& final(self).pulling == old(self).pulling
                &&& final(self).pull_again == old(self).pull_again
                &&& final(stream)@ == old(stream)@.errored(e)
                &&& final(effects)@ == old(effects)@ + seq![
                    ReadableEffect::QueueReset,
                    ReadableEffect::ClearAlgorithms,
                ] + old(stream)@.error_effects(e)
            },
    {
        if stream.state != ReadableStreamState::Readable {
            return;
        }
        let ghost e0 = effects@;
        self.reset_queue(effects);
        self.clear_algorithms(effects);
        let ghost e1 = effects@;
        stream.readable_stream_error(e, effects);
        assert(e1 == e0 + seq![ReadableEffect::QueueReset, ReadableEffect::ClearAlgorithms]);
    }

    /// ReadableStreamDefaultControllerClose: marks the close as requested and,
    /// when nothing is queued, closes the stream at once.
    pub fn readable_stream_default_controller_close(
        &mut self,
        stream: &mut ReadableStream,
        effects: &mut Vec<ReadableEffect>,
    )
        requires
            old(stream)@.wf(),
        ensures
            final(stream)@.wf(),
            !old(self).spec_can_close_or_enqueue(old(stream)@) ==> final(stream)@ == old(stream)@
                && *final(self) == *old(self) && final(effects)@ == old(effects)@,
            old(self).spec_can_close_or_enqueue(old(stream)@) ==> {
                &&& final(self).close_requested
                &&& final(self).queue@ == old(self).queue@
                &&& final(self).started == old(self).started
                &&& final(self).pulling == old(self).pulling
                &&& final(self).pull_again == old(self).pull_again
                &&& old(self).queue@.len() == 0 ==> final(self).algorithms_cleared
                    && final(stream)@ == old(stream)@.closed()
                    && final(effects)@ == old(effects)@.push(ReadableEffect::ClearAlgorithms)
                    + old(stream)@.close_effects()
                &&& old(self).queue@.len() > 0 ==> final(stream)@ == old(stream)@
                    && final(self).algorithms_cleared == old(self).algorithms_cleared
                    && final(effects)@ == old(effects)@
            },
    {
        if !self.readable_stream_default_controller_can_close_or_enqueue(stream) {
            return;
        }
        self.close_requested = true;
        if self.queue.len() == 0 {
            self.clear_algorithms(effects);
            stream.readable_stream_close(effects);
        }
    }

    /// ReadableStreamDefaultControllerEnqueue, up to the size algorithm: a
    /// chunk goes straight to a waiting read request when there is one;
    /// otherwise the host must size it and call `enqueue_sized`. After a
    /// direct delivery the host is asked to pull if needed.
    pub fn readable_stream_default_controller_enqueue(
        &mut self,
        stream: &mut ReadableStream,
        chunk: u64,
        effects: &mut Vec<ReadableEffect>,
    ) -> (route: EnqueueRoute)
        requires
            old(stream)@.wf(),
            !old(stream).byte_source,
        ensures
            final(stream)@.wf(),
            *final(self) == *old(self),
            !old(self).spec_can_close_or_enqueue(old(stream)@) ==> route == EnqueueRoute::Ignored
                && final(stream)@ == old(stream)@ && final(effects)@ == old(effects)@,
            old(self).spec_can_close_or_enqueue(old(stream)@) && old(stream).reader is Some
                && old(stream).read_requests@.len() > 0 ==> route == EnqueueRoute::Fulfilled
                && final(stream)@ == old(stream)@.with_requests(old(stream).read_requests@.drop_first())
                && final(effects)@ == old(effects)@ + seq![
                    old(stream)@.fulfill_effect(Chunk::Value(chunk), false),
                    ReadableEffect::PullIfNeeded,
                ],
            old(self).spec_can_close_or_enqueue(old(stream)@) && !(old(stream).reader is Some
                && old(stream).read_requests@.len() > 0) ==> route == EnqueueRoute::NeedsSize
                && final(stream)@ == old(stream)@ && final(effects)@ == old(effects)@,
    {
        if !self.readable_stream_default_controller_can_close_or_enqueue(stream) {
            return EnqueueRoute::Ignored;
        }
        if stream.is_readable_stream_locked() && stream.read_requests.len() > 0 {
            stream.readable_stream_fulfill_read_request(Chunk::Value(chunk), false, effects);
            effects.push(ReadableEffect::PullIfNeeded);
            return EnqueueRoute::Fulfilled;
        }
        EnqueueRoute::NeedsSize
    }

    /// The rest of ReadableStreamDefaultControllerEnqueue once the host has
    /// sized the chunk: a valid size queues the value (and the host is asked
    /// to pull if needed), whatever the size algorithm did to the stream; a
    /// failed size algorithm or an invalid size errors the controller with
    /// its reason (which changes nothing once the stream is not readable),
    /// and the reason is returned.
    pub fn enqueue_sized(
        &mut self,
        stream: &mut ReadableStream,
        chunk: u64,
        size: Result<u64, Reason>,
        effects: &mut Vec<ReadableEffect>,
    ) -> (r: Result<(), Reason>)
        requires
            old(stream)@.wf(),
        ensures
            final(stream)@.wf(),
            r == match size {
                Ok(_) => Ok(()),
                Err(e) => Err(e),
            },
            size is Ok ==> final(self).queue@ == old(self).queue@.push(
                ValueWithSize { value: chunk, size: size->Ok_0 },
            ) && final(stream)@ == old(stream)@ && final(effects)@ == old(effects)@.push(
                ReadableEffect::PullIfNeeded,
            ) && final(self).close_requested == old(self).close_requested
                && final(self).started == old(self).started
                && final(self).pulling == old(self).pulling
                && final(self).pull_again == old(self).pull_again
                && final(self).algorithms_cleared == old(self).algorithms_cleared,
            size is Err && old(stream).state != ReadableStreamState::Readable ==> *final(self) == *old(self)
                && final(stream)@ == old(stream)@ && final(effects)@ == old(effects)@,
            size is Err && old(stream).state == ReadableStreamState::Readable ==> final(self).queue@.len() == 0
                && final(self).algorithms_cleared
                && final(self).close_requested == old(self).close_requested
                && final(self).started == old(self).started
                && final(self).pulling == old(self).pulling
                && final(self).pull_again == old(self).pull_again
                && final(stream)@ == old(stream)@.errored(size->Err_0) && final(effects)@
                == old(effects)@ + seq![ReadableEffect::QueueReset, ReadableEffect::ClearAlgorithms]
                + old(stream)@.error_effects(size->Err_0),
    {
        match size {
            Ok(s) => {
                self.queue.push(ValueWithSize { value: chunk, size: s });
                effects.push(ReadableEffect::PullIfNeeded);
                Ok(())
            },
            Err(e) => {
                self.readable_stream_default_controller_error(stream, e, effects);
                Err(e)
            },
        }
    }

    /// What the pull steps of a default controller do for the read request
    /// `request` on the stream `s0`, after the steps `e0`: the controller
    /// becomes `c1`, the stream `s1`, and the steps `e1`. A queued value is
    /// handed over at once (closing the stream when it was the last one of a
    /// requested close); otherwise the request waits.
    pub open spec fn pull_steps_outcome(
        self,
        s0: ReadableStreamView,
        e0: Seq<ReadableEffect>,
        request: u64,
        c1: Self,
        s1: ReadableStreamView,
        e1: Seq<ReadableEffect>,
    ) -> bool {
        &&& c1.started == self.started
        &&& c1.pulling == self.pulling
        &&& c1.pull_again == self.pull_again
        &&& c1.close_requested == self.close_requested
        &&& self.queue@.len() > 0 ==> {
            let head = self.queue@[0];
            &&& c1.queue@ == self.queue@.drop_first()
            &&& (self.close_requested && self.queue@.len() == 1) ==> {
                &&& c1.algorithms_cleared
                &&& s1 == s0.closed()
                &&& e1 == e0 + seq![
                    ReadableEffect::Dequeued { value: head.value, size: head.size },
                    ReadableEffect::ClearAlgorithms,
                ] + s0.close_effects() + seq![
                    ReadableEffect::ReadChunk { request, chunk: Chunk::Value(head.value) },
                ]
            }
            &&& !(self.close_requested && self.queue@.len() == 1) ==> {
                &&& c1.algorithms_cleared == self.algorithms_cleared
                &&& s1 == s0
                &&& e1 == e0 + seq![
                    ReadableEffect::Dequeued { value: head.value, size: head.size },
                    ReadableEffect::PullIfNeeded,
                    ReadableEffect::ReadChunk { request, chunk: Chunk::Value(head.value) },
                ]
            }
        }
        &&& self.queue@.len() == 0 ==> {
            &&& c1.queue@ == self.queue@
            &&& c1.algorithms_cleared == self.algorithms_cleared
            &&& s1 == s0.with_requests(s0.read_requests.push(request))
            &&& e1 == e0.push(ReadableEffect::PullIfNeeded)
        }
    }

    /// The pull steps of a default controller for the read request `request`:
    /// a queued value is handed over at once (closing the stream when it was
    /// the last one of a requested close); otherwise the request waits.
    pub fn pull_steps(
        &mut self,
        stream: &mut ReadableStream,
        request: u64,
        effects: &mut Vec<ReadableEffect>,
    )
        requires
            old(stream)@.wf(),
            old(stream).state == ReadableStreamState::Readable,
            old(stream).reader matches Some(r) && r.kind == ReaderKind::DefaultReader,
        ensures
            final(stream)@.wf(),
            old(self).pull_steps_outcome(old(stream)@, old(effects)@, request, *final(self), final(stream)@, final(effects)@),
    {
        if self.queue.len() > 0 {
            let head = self.queue.remove(0);
            effects.push(ReadableEffect::Dequeued { value: head.value, size: head.size });
            if self.close_requested && self.queue.len() == 0 {
                let ghost e1 = effects@;
                self.clear_algorithms(effects);
                stream.readable_stream_close(effects);
                assert(effects@ == e1.push(ReadableEffect::ClearAlgorithms) + old(stream)@.close_effects());
            } else {
                effects.push(ReadableEffect::PullIfNeeded);
            }
            effects.push(ReadableEffect::ReadChunk { request, chunk: Chunk::Value(head.value) });
            proof {
                if old(self).close_requested && old(self).queue@.len() == 1 {
                    assert(effects@ =~= old(effects)@ + seq![
                        ReadableEffect::Dequeued { value: head.value, size: head.size },
                        ReadableEffect::ClearAlgorithms,
                    ] + old(stream)@.close_effects() + seq![
                        ReadableEffect::ReadChunk { request, chunk: Chunk::Value(head.value) },
                    ]);
                } else {
                    assert(effects@ =~= old(effects)@ + seq![
                        ReadableEffect::Dequeued { value: head.value, size: head.size },
                        ReadableEffect::PullIfNeeded,
                        ReadableEffect::ReadChunk { request, chunk: Chunk::Value(head.value) },
                    ]);
                }
            }
        } else {
            stream.readable_stream_add_read_request(request);
            effects.push(ReadableEffect::PullIfNeeded);
        }
    }

    /// The cancel steps of a default controller: the queue is emptied, the
    /// cancel algorithm performed with `reason` and the algorithms dropped.
    pub fn cancel_steps(&mut self, reason: Reason, effects: &mut Vec<ReadableEffect>)
        ensures
            final(self).queue@.len() == 0,
            final(self).algorithms_cleared,
            final(self).close_requested == old(self).close_requested,
            final(self).started == old(self).started,
            final(self).pulling == old(self).pulling,
            final(self).pull_again == old(self).pull_again,
            final(effects)@ == old(effects)@ + seq![
                ReadableEffect::QueueReset,
                ReadableEffect::CallCancel { reason },
                ReadableEffect::ClearAlgorithms,
            ],
    {
        self.reset_queue(effects);
        effects.push(ReadableEffect::CallCancel { reason });
        self.clear_algorithms(effects);
    }
}


impl ReadableStreamDefaultController {
    /// The public `close()` of a default controller: refused when it cannot
    /// close, otherwise ReadableStreamDefaultControllerClose.
    pub fn close(&mut self, stream: &mut ReadableStream, effects: &mut Vec<ReadableEffect>) -> (r: Result<(), StreamError>)
        requires
            old(stream)@.wf(),
        ensures
            final(stream)@.wf(),
            !old(self).spec_can_close_or_enqueue(old(stream)@) ==> r == Err::<(), StreamError>(
                StreamError::DefaultCannotClose,
            ) && final(stream)@ == old(stream)@ && final(effects)@ == old(effects)@ && *final(self) == *old(self),
            old(self).spec_can_close_or_enqueue(old(stream)@) ==> {
                &&& r is Ok
                &&& final(self).close_requested
                &&& final(self).queue@ == old(self).queue@
                &&& final(self).started == old(self).started
                &&& final(self).pulling == old(self).pulling
                &&& final(self).pull_again == old(self).pull_again
                &&& old(self).queue@.len() == 0 ==> final(self).algorithms_cleared
                    && final(stream)@ == old(stream)@.closed()
                    && final(effects)@ == old(effects)@.push(ReadableEffect::ClearAlgorithms)
                    + old(stream)@.close_effects()
                &&& old(self).queue@.len() > 0 ==> final(stream)@ == old(stream)@
                    && final(self).algorithms_cleared == old(self).algorithms_cleared
                    && final(effects)@ == old(effects)@
            },
    {
        if !self.readable_stream_default_controller_can_close_or_enqueue(stream) {
            return Err(StreamError::DefaultCannotClose);
        }
        self.readable_stream_default_controller_close(stream, effects);
        Ok(())
    }

    /// The public `enqueue(chunk)` of a default controller: refused when it
    /// cannot enqueue, otherwise ReadableStreamDefaultControllerEnqueue.
    pub fn enqueue(
        &mut self,
        stream: &mut ReadableStream,
        chunk: u64,
        effects: &mut Vec<ReadableEffect>,
    ) -> (r: Result<EnqueueRoute, StreamError>)
        requires
            old(stream)@.wf(),
            !old(stream).byte_source,
        ensures
            final(stream)@.wf(),
            *final(self) == *old(self),
            !old(self).spec_can_close_or_enqueue(old(stream)@) ==> r == Err::<EnqueueRoute, StreamError>(
                StreamError::DefaultCannotEnqueue,
            ) && final(stream)@ == old(stream)@ && final(effects)@ == old(effects)@,
            old(self).spec_can_close_or_enqueue(old(stream)@) && old(stream).reader is Some
                && old(stream).read_requests@.len() > 0 ==> r == Ok::<EnqueueRoute, StreamError>(EnqueueRoute::Fulfilled)
                && final(stream)@ == old(stream)@.with_requests(old(stream).read_requests@.drop_first())
                && final(effects)@ == old(effects)@ + seq![
                    old(stream)@.fulfill_effect(Chunk::Value(chunk), false),
                    ReadableEffect::PullIfNeeded,
                ],
            old(self).spec_can_close_or_enqueue(old(stream)@) && !(old(stream).reader is Some
                && old(stream).read_requests@.len() > 0) ==> r == Ok::<EnqueueRoute, StreamError>(EnqueueRoute::NeedsSize)
                && final(stream)@ == old(stream)@ && final(effects)@ == old(effects)@,
    {
        if !self.readable_stream_default_controller_can_close_or_enqueue(stream) {
            return Err(StreamError::DefaultCannotEnqueue);
        }
        Ok(self.readable_stream_default_controller_enqueue(stream, chunk, effects))
    }

    /// What the desired size of a default controller is: null for an errored
    /// stream, 0 for a closed one, else the host's high water mark less the
    /// sizes it queued.
    pub fn desired_size(stream: &ReadableStream) -> (r: crate::writable::DesiredSize)
        ensures
            stream.state == ReadableStreamState::Errored ==> r == crate::writable::DesiredSize::Null,
            stream.state == ReadableStreamState::Closed ==> r == crate::writable::DesiredSize::Zero,
            stream.state == ReadableStreamState::Readable ==> r == crate::writable::DesiredSize::FromController,
    {
        match stream.state {
            ReadableStreamState::Errored => crate::writable::DesiredSize::Null,
            ReadableStreamState::Closed => crate::writable::DesiredSize::Zero,
            ReadableStreamState::Readable => crate::writable::DesiredSize::FromController,
        }
    }
}


impl ReadableStreamDefaultController {
    /// The fulfillment steps of the pull algorithm of a stream made from an
    /// async iterable, given the iterator's result: a finished iterator
    /// closes the stream, otherwise its value is enqueued.
    pub fn iterator_step(
        &mut self,
        stream: &mut ReadableStream,
        done: bool,
        value: u64,
        effects: &mut Vec<ReadableEffect>,
    ) -> (route: EnqueueRoute)
        requires
            old(stream)@.wf(),
            !old(stream).byte_source,
        ensures
            final(stream)@.wf(),
            done ==> route == EnqueueRoute::Ignored,
            done && !old(self).spec_can_close_or_enqueue(old(stream)@) ==> final(stream)@ == old(stream)@
                && *final(self) == *old(self) && final(effects)@ == old(effects)@,
            done && old(self).spec_can_close_or_enqueue(old(stream)@) ==> {
                &&& final(self).close_requested
                &&& final(self).queue@ == old(self).queue@
                &&& final(self).started == old(self).started
                &&& final(self).pulling == old(self).pulling
                &&& final(self).pull_again == old(self).pull_again
                &&& old(self).queue@.len() == 0 ==> final(self).algorithms_cleared
                    && final(stream)@ == old(stream)@.closed()
                    && final(effects)@ == old(effects)@.push(ReadableEffect::ClearAlgorithms)
                    + old(stream)@.close_effects()
                &&& old(self).queue@.len() > 0 ==> final(stream)@ == old(stream)@
                    && final(self).algorithms_cleared == old(self).algorithms_cleared
                    && final(effects)@ == old(effects)@
            },
            !done ==> *final(self) == *old(self),
            !done && !old(self).spec_can_close_or_enqueue(old(stream)@) ==> route == EnqueueRoute::Ignored
                && final(stream)@ == old(stream)@ && final(effects)@ == old(effects)@,
            !done && old(self).spec_can_close_or_enqueue(old(stream)@) && old(stream).reader is Some
                && old(stream).read_requests@.len() > 0 ==> route == EnqueueRoute::Fulfilled
                && final(stream)@ == old(stream)@.with_requests(old(stream).read_requests@.drop_first())
                && final(effects)@ == old(effects)@ + seq![
                    old(stream)@.fulfill_effect(Chunk::Value(value), false),
                    ReadableEffect::PullIfNeeded,
                ],
            !done && old(self).spec_can_close_or_enqueue(old(stream)@) && !(old(stream).reader is Some
                && old(stream).read_requests@.len() > 0) ==> route == EnqueueRoute::NeedsSize
                && final(stream)@ == old(stream)@ && final(effects)@ == old(effects)@,
    {
        if done {
            self.readable_stream_default_controller_close(stream, effects);
            EnqueueRoute::Ignored
        } else {
            self.readable_stream_default_controller_enqueue(stream, value, effects)
        }
    }
}

} // verus!
