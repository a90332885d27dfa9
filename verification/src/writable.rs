//! A writable stream and its default writer: the state machine through
//! writable, erroring, errored and closed, the pending close and abort
//! requests, and the writer's ready and closed promises.
use vstd::prelude::*;
use crate::effect::{Reason, StreamError};

verus! {

/// The state of a writable stream.
#[derive(Clone, Copy, PartialEq, Eq, Structural, Debug)]
pub enum WritableStreamState {
    Writable,
    Closed,
    Erroring,
    Errored,
}

/// An abort that waits for the stream to finish erroring.
#[derive(Clone, Copy, PartialEq, Eq, Structural, Debug)]
pub struct PendingAbortRequest {
    pub promise: u64,
    pub reason: Reason,
    pub was_already_erroring: bool,
}

/// A piece of outside work a step of a writable stream hands to its host, in order.
#[derive(Clone, Copy, PartialEq, Eq, Structural, Debug)]
pub enum WritableEffect {
    /// Resolve the writer's ready promise with undefined.
    ResolveReady { writer: u64 },
    /// WritableStreamDefaultWriterEnsureReadyPromiseRejected.
    EnsureReadyRejected { writer: u64, reason: Reason },
    /// WritableStreamDefaultWriterEnsureClosedPromiseRejected.
    EnsureClosedRejected { writer: u64, reason: Reason },
    /// Reject the writer's closed promise and mark it handled.
    RejectClosed { writer: u64, reason: Reason },
    /// Resolve the promise `promise` with undefined.
    ResolvePromise { promise: u64 },
    /// Reject the promise `promise`.
    RejectPromise { promise: u64, reason: Reason },
    /// WritableStreamDefaultControllerClose.
    ControllerClose,
    /// WritableStreamDefaultControllerClearAlgorithms.
    ControllerClearAlgorithms,
    /// The controller's error steps.
    ControllerErrorSteps,
    /// The controller's abort steps with `reason`; how their promise settles
    /// is reported to `abort_steps_settled` with `promise`.
    ControllerAbortSteps { reason: Reason, promise: u64 },
    /// WritableStreamDefaultControllerWrite of `chunk` with the size behind
    /// `size` (or 1 when there is none).
    ControllerWrite { chunk: u64, size: Option<u64> },
}

/// How a promise of a new writer starts.
#[derive(Clone, Copy, PartialEq, Eq, Structural, Debug)]
pub enum PromiseInit {
    Pending,
    Resolved,
    /// Rejected with the reason and marked handled.
    Rejected(Reason),
}

/// The starting promises of a new writer.
#[derive(Clone, Copy, PartialEq, Eq, Structural, Debug)]
pub struct WritableStreamDefaultWriter {
    pub id: u64,
    pub ready_promise: PromiseInit,
    pub closed_promise: PromiseInit,
}

/// What an abort returns.
#[derive(Clone, Copy, PartialEq, Eq, Structural, Debug)]
pub enum AbortOutcome {
    /// A promise resolved with undefined.
    Resolved,
    /// The promise of the pending abort request.
    Pending(u64),
}

/// What a writer's desired size is.
#[derive(Clone, Copy, PartialEq, Eq, Structural, Debug)]
pub enum DesiredSize {
    /// null.
    Null,
    /// 0.
    Zero,
    /// The controller's high water mark less its queued size.
    FromController,
}

/// A writable stream.
pub struct WritableStream {
    pub backpressure: bool,
    pub close_request: Option<u64>,
    pub in_flight_write_request: Option<u64>,
    pub in_flight_close_request: Option<u64>,
    pub pending_abort_request: Option<PendingAbortRequest>,
    pub state: WritableStreamState,
    pub stored_error: Option<Reason>,
    pub writer: Option<u64>,
    pub write_requests: Vec<u64>,
    pub controller_started: bool,
}

/// The mathematical value of a writable stream.
pub struct WritableStreamView {
    pub backpressure: bool,
    pub close_request: Option<u64>,
    pub in_flight_write_request: Option<u64>,
    pub in_flight_close_request: Option<u64>,
    pub pending_abort_request: Option<PendingAbortRequest>,
    pub state: WritableStreamState,
    pub stored_error: Option<Reason>,
    pub writer: Option<u64>,
    pub write_requests: Seq<u64>,
    pub controller_started: bool,
}

impl View for WritableStream {
    type V = WritableStreamView;

    open spec fn view(&self) -> WritableStreamView {
        WritableStreamView {
            backpressure: self.backpressure,
            close_request: self.close_request,
            in_flight_write_request: self.in_flight_write_request,
            in_flight_close_request: self.in_flight_close_request,
            pending_abort_request: self.pending_abort_request,
            state: self.state,
            stored_error: self.stored_error,
            writer: self.writer,
            write_requests: self.write_requests@,
            controller_started: self.controller_started,
        }
    }
}

/// The rejections of every write request with `e`, in order.
pub open spec fn reject_write_effects(requests: Seq<u64>, e: Reason) -> Seq<WritableEffect> {
    requests.map_values(|p: u64| WritableEffect::RejectPromise { promise: p, reason: e })
}

impl WritableStreamView {
    /// A stream that is erroring or errored has a stored error.
    pub open spec fn wf(self) -> bool {
        (self.state == WritableStreamState::Erroring || self.state == WritableStreamState::Errored)
            ==> self.stored_error is Some
    }

    /// WritableStreamCloseQueuedOrInFlight.
    pub open spec fn close_queued_or_in_flight(self) -> bool {
        self.close_request is Some || self.in_flight_close_request is Some
    }

    /// WritableStreamHasOperationMarkedInFlight.
    pub open spec fn has_operation_marked_in_flight(self) -> bool {
        self.in_flight_write_request is Some || self.in_flight_close_request is Some
    }

    /// The steps WritableStreamRejectCloseAndClosedPromiseIfNeeded hands to the host.
    pub open spec fn reject_close_effects(self) -> Seq<WritableEffect> {
        let e = self.stored_error->Some_0;
        (match self.close_request {
            Some(p) => seq![WritableEffect::RejectPromise { promise: p, reason: e }],
            None => seq![],
        }) + (match self.writer {
            Some(w) => seq![WritableEffect::RejectClosed { writer: w, reason: e }],
            None => seq![],
        })
    }

    /// The stream after WritableStreamFinishErroring.
    pub open spec fn finished_erroring(self) -> Self {
        WritableStreamView {
            state: WritableStreamState::Errored,
            write_requests: Seq::empty(),
            pending_abort_request: None,
            close_request: if self.pending_abort_request matches Some(a) && !a.was_already_erroring {
                self.close_request
            } else {
                None
            },
            ..self
        }
    }

    /// The steps WritableStreamFinishErroring hands to the host.
    pub open spec fn finish_erroring_effects(self) -> Seq<WritableEffect> {
        let e = self.stored_error->Some_0;
        let head = seq![WritableEffect::ControllerErrorSteps] + reject_write_effects(self.write_requests, e);
        match self.pending_abort_request {
            None => head + self.reject_close_effects(),
            Some(a) => if a.was_already_erroring {
                head + seq![WritableEffect::RejectPromise { promise: a.promise, reason: e }]
                    + self.reject_close_effects()
            } else {
                head + seq![WritableEffect::ControllerAbortSteps { reason: a.reason, promise: a.promise }]
            },
        }
    }

    /// The stream after WritableStreamStartErroring with `reason`, before any
    /// finishing.
    pub open spec fn start_erroring(self, reason: Reason) -> Self {
        WritableStreamView { state: WritableStreamState::Erroring, stored_error: Some(reason), ..self }
    }

    /// Whether WritableStreamStartErroring finishes erroring at once.
    pub open spec fn finishes_at_once(self) -> bool {
        !self.has_operation_marked_in_flight() && self.controller_started
    }

    /// What WritableStreamStartErroring with `reason` does to this stream
    /// after the steps `e0`: the stream becomes `s1` and the steps `e1`. The
    /// stream becomes erroring, the writer's ready promise is rejected, and
    /// with nothing in flight on a started controller the erroring finishes.
    pub open spec fn start_erroring_outcome(
        self,
        e0: Seq<WritableEffect>,
        reason: Reason,
        s1: Self,
        e1: Seq<WritableEffect>,
    ) -> bool {
        let erroring = self.start_erroring(reason);
        let ready = match self.writer {
            Some(w) => seq![WritableEffect::EnsureReadyRejected { writer: w, reason }],
            None => seq![],
        };
        &&& erroring.finishes_at_once() ==> s1 == erroring.finished_erroring() && e1 == e0 + ready
            + erroring.finish_erroring_effects()
        &&& !erroring.finishes_at_once() ==> s1 == erroring && e1 == e0 + ready
    }

    /// What WritableStreamAbort with `reason` and the new abort request's
    /// promise `promise` does to this stream after the steps `e0`: it answers
    /// `r`, the stream becomes `s1` and the steps `e1`.
    pub open spec fn abort_outcome(
        self,
        e0: Seq<WritableEffect>,
        reason: Reason,
        promise: u64,
        r: AbortOutcome,
        s1: Self,
        e1: Seq<WritableEffect>,
    ) -> bool {
        let finished = self.state == WritableStreamState::Closed || self.state == WritableStreamState::Errored;
        &&& finished ==> r == AbortOutcome::Resolved && s1 == self && e1 == e0
        &&& !finished && self.pending_abort_request is Some ==> r == AbortOutcome::Pending(
            self.pending_abort_request->Some_0.promise,
        ) && s1 == self && e1 == e0
        &&& self.state == WritableStreamState::Erroring && self.pending_abort_request is None ==> r
            == AbortOutcome::Pending(promise) && s1 == (WritableStreamView {
            pending_abort_request: Some(
                PendingAbortRequest { promise, reason: Reason::Undefined, was_already_erroring: true },
            ),
            ..self
        }) && e1 == e0
        &&& self.state == WritableStreamState::Writable && self.pending_abort_request is None ==> r
            == AbortOutcome::Pending(promise) && (WritableStreamView {
            pending_abort_request: Some(PendingAbortRequest { promise, reason, was_already_erroring: false }),
            ..self
        }).start_erroring_outcome(e0, reason, s1, e1)
    }
}

impl WritableStream {
    /// InitializeWritableStream.
    pub fn new() -> (s: Self)
        ensures
            s@.state == WritableStreamState::Writable,
            s@.stored_error is None && s@.writer is None && s@.close_request is None,
            s@.in_flight_write_request is None && s@.in_flight_close_request is None,
            s@.pending_abort_request is None && s@.write_requests.len() == 0,
            !s@.backpressure && !s@.controller_started,
    {
        WritableStream {
            backpressure: false,
            close_request: Option::None,
            in_flight_write_request: Option::None,
            in_flight_close_request: Option::None,
            pending_abort_request: Option::None,
            state: WritableStreamState::Writable,
            stored_error: Option::None,
            writer: Option::None,
            write_requests: Vec::new(),
            controller_started: false,
        }
    }

    /// The underlying sink's `type` must be absent.
    pub fn check_sink_type(has_type: bool) -> (r: Result<(), StreamError>)
        ensures
            has_type <==> r == Err::<(), StreamError>(StreamError::InvalidSinkType),
            !has_type <==> r is Ok,
    {
        if has_type {
            Err(StreamError::InvalidSinkType)
        } else {
            Ok(())
        }
    }

    /// IsWritableStreamLocked: the stream has a writer.
    pub fn is_writable_stream_locked(&self) -> (r: bool)
        ensures
            r == (self.writer is Some),
    {
        self.writer.is_some()
    }

    /// WritableStreamCloseQueuedOrInFlight.
    pub fn writable_stream_close_queued_or_in_flight(&self) -> (r: bool)
        ensures
            r == self@.close_queued_or_in_flight(),
    {
        self.close_request.is_some() || self.in_flight_close_request.is_some()
    }

    /// WritableStreamHasOperationMarkedInFlight.
    pub fn writable_stream_has_operation_marked_in_flight(&self) -> (r: bool)
        ensures
            r == self@.has_operation_marked_in_flight(),
    {
        self.in_flight_write_request.is_some() || self.in_flight_close_request.is_some()
    }

    /// WritableStreamRejectCloseAndClosedPromiseIfNeeded: a queued close
    /// request and the writer's closed promise are rejected with the stored error.
    pub fn writable_stream_reject_close_and_closed_promise_if_needed(&mut self, effects: &mut Vec<WritableEffect>)
        requires
            old(self)@.stored_error is Some,
        ensures
            final(self)@ == (WritableStreamView { close_request: None, ..old(self)@ }),
            final(effects)@ == old(effects)@ + old(self)@.reject_close_effects(),
    {
        let e = match self.stored_error {
            Option::Some(e) => e,
            Option::None => Reason::Undefined,
        };
        let ghost e0 = effects@;
        if let Option::Some(p) = self.close_request {
            effects.push(WritableEffect::RejectPromise { promise: p, reason: e });
            self.close_request = Option::None;
        }
        let ghost e1 = effects@;
        if let Option::Some(w) = self.writer {
            effects.push(WritableEffect::RejectClosed { writer: w, reason: e });
        }
        assert(effects@ =~= old(effects)@ + old(self)@.reject_close_effects());
    }

    /// WritableStreamFinishErroring: the stream becomes errored; the
    /// controller's error steps run and the write requests are rejected; a
    /// pending abort is rejected (when it came while erroring) or handed to
    /// the controller's abort steps, and otherwise a queued close and the
    /// writer's closed promise are rejected.
    pub fn writable_stream_finish_erroring(&mut self, effects: &mut Vec<WritableEffect>)
        requires
            old(self)@.stored_error is Some,
        ensures
            final(self)@ == old(self)@.finished_erroring(),
            final(effects)@ == old(effects)@ + old(self)@.finish_erroring_effects(),
    {
        self.state = WritableStreamState::Errored;
        effects.push(WritableEffect::ControllerErrorSteps);
        let e = match self.stored_error {
            Option::Some(e) => e,
            Option::None => Reason::Undefined,
        };
        let ghost e1 = effects@;
        let ghost requests = self.write_requests@;
        let mut i: usize = 0;
        while i < self.write_requests.len()
            invariant
                i <= self.write_requests@.len(),
                self.write_requests@ == requests,
                effects@ == e1 + reject_write_effects(requests.take(i as int), e),
            decreases self.write_requests@.len() - i,
        {
            let p = self.write_requests[i];
            effects.push(WritableEffect::RejectPromise { promise: p, reason: e });
            assert(requests.take(i + 1) =~= requests.take(i as int).push(p));
            assert(reject_write_effects(requests.take(i + 1), e) =~= reject_write_effects(
                requests.take(i as int),
                e,
            ).push(WritableEffect::RejectPromise { promise: p, reason: e }));
            i = i + 1;
        }
        assert(requests.take(i as int) =~= requests);
        self.write_requests.clear();
        let ghost e2 = effects@;
        assert(e2 =~= old(effects)@ + seq![WritableEffect::ControllerErrorSteps] + reject_write_effects(
            old(self)@.write_requests,
            e,
        ));
        let abort_request = self.pending_abort_request;
        self.pending_abort_request = Option::None;
        match abort_request {
            Option::None => {
                self.writable_stream_reject_close_and_closed_promise_if_needed(effects);
            },
            Option::Some(a) => {
                if a.was_already_erroring {
                    effects.push(WritableEffect::RejectPromise { promise: a.promise, reason: e });
                    self.writable_stream_reject_close_and_closed_promise_if_needed(effects);
                } else {
                    effects.push(WritableEffect::ControllerAbortSteps { reason: a.reason, promise: a.promise });
                }
            },
        }
        assert(self.write_requests@ =~= Seq::<u64>::empty());
        assert(self@ =~= old(self)@.finished_erroring());
        assert(effects@ =~= old(effects)@ + old(self)@.finish_erroring_effects());
    }

    /// How the controller's abort steps settled for the abort request whose
    /// promise is `promise`: the promise follows them, then a queued close and
    /// the writer's closed promise are rejected.
    pub fn abort_steps_settled(
        &mut self,
        promise: u64,
        result: Result<(), Reason>,
        effects: &mut Vec<WritableEffect>,
    )
        requires
            old(self)@.stored_error is Some,
        ensures
            final(self)@ == (WritableStreamView { close_request: None, ..old(self)@ }),
            final(effects)@ == old(effects)@ + seq![
                match result {
                    Ok(_) => WritableEffect::ResolvePromise { promise },
                    Err(r) => WritableEffect::RejectPromise { promise, reason: r },
                },
            ] + old(self)@.reject_close_effects(),
    {
        match result {
            Ok(_) => effects.push(WritableEffect::ResolvePromise { promise }),
            Err(r) => effects.push(WritableEffect::RejectPromise { promise, reason: r }),
        }
        self.writable_stream_reject_close_and_closed_promise_if_needed(effects);
    }

    /// WritableStreamStartErroring: the stream becomes erroring with `reason`,
    /// the writer's ready promise is rejected, and with nothing in flight on a
    /// started controller the erroring finishes at once.
    pub fn writable_stream_start_erroring(&mut self, reason: Reason, effects: &mut Vec<WritableEffect>)
        requires
            old(self)@.state == WritableStreamState::Writable,
        ensures
            final(self)@.wf(),
            old(self)@.start_erroring_outcome(old(effects)@, reason, final(self)@, final(effects)@),
    {
        self.state = WritableStreamState::Erroring;
        self.stored_error = Option::Some(reason);
        if let Option::Some(w) = self.writer {
            effects.push(WritableEffect::EnsureReadyRejected { writer: w, reason });
        }
        let ghost e1 = effects@;
        assert(e1 =~= old(effects)@ + match old(self)@.writer {
            Some(w) => seq![WritableEffect::EnsureReadyRejected { writer: w, reason }],
            None => seq![],
        });
        if !self.writable_stream_has_operation_marked_in_flight() && self.controller_started {
            self.writable_stream_finish_erroring(effects);
        }
    }

    /// WritableStreamDefaultControllerError: the controller drops its
    /// algorithms and the stream starts erroring with `e`.
    pub fn writable_stream_default_controller_error(&mut self, e: Reason, effects: &mut Vec<WritableEffect>)
        requires
            old(self)@.state == WritableStreamState::Writable,
        ensures
            final(self)@.wf(),
            final(self)@.stored_error == Some(e),
            final(self)@.state != WritableStreamState::Writable,
            old(self)@.start_erroring_outcome(
                old(effects)@.push(WritableEffect::ControllerClearAlgorithms),
                e,
                final(self)@,
                final(effects)@,
            ),
    {
        effects.push(WritableEffect::ControllerClearAlgorithms);
        self.writable_stream_start_erroring(e, effects);
    }

    /// WritableStreamDefaultControllerErrorIfNeeded: a writable stream is
    /// errored with `e`; any other is left alone.
    pub fn writable_stream_default_controller_error_if_needed(&mut self, e: Reason, effects: &mut Vec<WritableEffect>)
        requires
            old(self)@.wf(),
        ensures
            final(self)@.wf(),
            old(self)@.state != WritableStreamState::Writable ==> final(self)@ == old(self)@ && final(effects)@
                == old(effects)@,
            old(self)@.state == WritableStreamState::Writable ==> final(self)@.stored_error == Some(e)
                && final(self)@.state != WritableStreamState::Writable && old(self)@.start_erroring_outcome(
                old(effects)@.push(WritableEffect::ControllerClearAlgorithms),
                e,
                final(self)@,
                final(effects)@,
            ),
    {
        if self.state == WritableStreamState::Writable {
            self.writable_stream_default_controller_error(e, effects);
        }
    }

    /// Whether an abort signals the controller's abort controller first (the
    /// stream is neither closed nor errored); the host signals it with the
    /// reason before `writable_stream_abort`.
    pub fn abort_signals(&self) -> (r: bool)
        ensures
            r == !(self.state == WritableStreamState::Closed || self.state == WritableStreamState::Errored),
    {
        !(self.state == WritableStreamState::Closed || self.state == WritableStreamState::Errored)
    }

    /// WritableStreamAbort, after the abort signal: a closed or errored stream
    /// aborts to undefined; a pending abort is shared; otherwise a new abort
    /// request with promise `promise` is recorded (with an undefined reason
    /// when the stream was already erroring) and a writable stream starts erroring.
    pub fn writable_stream_abort(
        &mut self,
        reason: Reason,
        promise: u64,
        effects: &mut Vec<WritableEffect>,
    ) -> (r: AbortOutcome)
        requires
            old(self)@.wf(),
        ensures
            final(self)@.wf(),
            old(self)@.abort_outcome(old(effects)@, reason, promise, r, final(self)@, final(effects)@),
    {
        if self.state == WritableStreamState::Closed || self.state == WritableStreamState::Errored {
            return AbortOutcome::Resolved;
        }
        if let Option::Some(p) = self.pending_abort_request {
            return AbortOutcome::Pending(p.promise);
        }
        let was_already_erroring = self.state == WritableStreamState::Erroring;
        let reason = if was_already_erroring { Reason::Undefined } else { reason };
        self.pending_abort_request = Option::Some(PendingAbortRequest { promise, reason, was_already_erroring });
        if !was_already_erroring {
            self.writable_stream_start_erroring(reason, effects);
        }
        AbortOutcome::Pending(promise)
    }

    /// The public `abort(reason)`: refused while the stream has a writer.
    pub fn abort(&mut self, reason: Reason, promise: u64, effects: &mut Vec<WritableEffect>) -> (r: Result<AbortOutcome, StreamError>)
        requires
            old(self)@.wf(),
        ensures
            final(self)@.wf(),
            old(self)@.writer is Some ==> r == Err::<AbortOutcome, StreamError>(StreamError::AbortLockedStream)
                && final(self)@ == old(self)@ && final(effects)@ == old(effects)@,
            old(self)@.writer is None ==> (r matches Ok(outcome) && old(self)@.abort_outcome(
                old(effects)@,
                reason,
                promise,
                outcome,
                final(self)@,
                final(effects)@,
            )),
    {
        if self.is_writable_stream_locked() {
            return Err(StreamError::AbortLockedStream);
        }
        Ok(self.writable_stream_abort(reason, promise, effects))
    }

    /// WritableStreamClose: a closed or errored stream refuses; otherwise the
    /// close request `promise` is recorded, a writer waiting on backpressure is
    /// made ready, and the controller closes.
    pub fn writable_stream_close(&mut self, promise: u64, effects: &mut Vec<WritableEffect>) -> (r: Result<u64, StreamError>)
        ensures
            old(self)@.state == WritableStreamState::Closed || old(self)@.state == WritableStreamState::Errored
                ==> r == Err::<u64, StreamError>(StreamError::CloseNotWritable) && final(self)@ == old(self)@
                && final(effects)@ == old(effects)@,
            !(old(self)@.state == WritableStreamState::Closed || old(self)@.state == WritableStreamState::Errored)
                ==> r == Ok::<u64, StreamError>(promise) && final(self)@ == (WritableStreamView {
                close_request: Some(promise),
                ..old(self)@
            }) && final(effects)@ == old(effects)@ + (if old(self)@.writer is Some && old(self)@.backpressure
                && old(self)@.state == WritableStreamState::Writable {
                seq![WritableEffect::ResolveReady { writer: old(self)@.writer->Some_0 }]
            } else {
                seq![]
            }) + seq![WritableEffect::ControllerClose],
    {
        if self.state == WritableStreamState::Closed || self.state == WritableStreamState::Errored {
            return Err(StreamError::CloseNotWritable);
        }
        self.close_request = Option::Some(promise);
        let ghost e0 = effects@;
        if let Option::Some(w) = self.writer {
            if self.backpressure && self.state == WritableStreamState::Writable {
                effects.push(WritableEffect::ResolveReady { writer: w });
            }
        }
        effects.push(WritableEffect::ControllerClose);
        assert(effects@ =~= old(effects)@ + (if old(self)@.writer is Some && old(self)@.backpressure && old(self)@.state == WritableStreamState::Writable {
            seq![WritableEffect::ResolveReady { writer: old(self)@.writer->Some_0 }]
        } else {
            seq![]
        }) + seq![WritableEffect::ControllerClose]);
        Ok(promise)
    }

    /// The public `close()`: refused while the stream has a writer or is
    /// already closing.
    pub fn close(&mut self, promise: u64, effects: &mut Vec<WritableEffect>) -> (r: Result<u64, StreamError>)
        ensures
            old(self)@.writer is Some ==> r == Err::<u64, StreamError>(StreamError::CloseLockedStream),
            old(self)@.writer is None && old(self)@.close_queued_or_in_flight() ==> r == Err::<u64, StreamError>(
                StreamError::CloseClosingStream,
            ),
            r is Err ==> final(self)@ == old(self)@ && final(effects)@ == old(effects)@,
            old(self)@.writer is None && !old(self)@.close_queued_or_in_flight() && (old(self)@.state
                == WritableStreamState::Closed || old(self)@.state == WritableStreamState::Errored) ==> r == Err::<
                u64,
                StreamError,
            >(StreamError::CloseNotWritable),
            old(self)@.writer is None && !old(self)@.close_queued_or_in_flight() && !(old(self)@.state
                == WritableStreamState::Closed || old(self)@.state == WritableStreamState::Errored) ==> r == Ok::<
                u64,
                StreamError,
            >(promise) && final(self)@ == (WritableStreamView { close_request: Some(promise), ..old(self)@ })
                && final(effects)@ == old(effects)@.push(WritableEffect::ControllerClose),
    {
        if self.is_writable_stream_locked() {
            return Err(StreamError::CloseLockedStream);
        }
        if self.writable_stream_close_queued_or_in_flight() {
            return Err(StreamError::CloseClosingStream);
        }
        self.writable_stream_close(promise, effects)
    }
}

/// The promises a new writer starts with, given the stream.
pub open spec fn writer_promises(s: WritableStreamView) -> (PromiseInit, PromiseInit) {
    match s.state {
        WritableStreamState::Writable => (
            if !s.close_queued_or_in_flight() && s.backpressure {
                PromiseInit::Pending
            } else {
                PromiseInit::Resolved
            },
            PromiseInit::Pending,
        ),
        WritableStreamState::Erroring => (PromiseInit::Rejected(s.stored_error->Some_0), PromiseInit::Pending),
        WritableStreamState::Closed => (PromiseInit::Resolved, PromiseInit::Resolved),
        WritableStreamState::Errored => (
            PromiseInit::Rejected(s.stored_error->Some_0),
            PromiseInit::Rejected(s.stored_error->Some_0),
        ),
    }
}

impl WritableStreamDefaultWriter {
    /// SetUpWritableStreamDefaultWriter: the writer `id` locks the stream,
    /// unless it is locked already; its promises start as the stream's state says.
    pub fn new(stream: &mut WritableStream, id: u64) -> (r: Result<Self, StreamError>)
        requires
            old(stream)@.wf(),
        ensures
            old(stream)@.writer is Some ==> r == Err::<Self, StreamError>(StreamError::WritableLocked)
                && final(stream)@ == old(stream)@,
            old(stream)@.writer is None ==> r == Ok::<Self, StreamError>(
                WritableStreamDefaultWriter {
                    id,
                    ready_promise: writer_promises(old(stream)@).0,
                    closed_promise: writer_promises(old(stream)@).1,
                },
            ) && final(stream)@ == (WritableStreamView { writer: Some(id), ..old(stream)@ }),
    {
        if stream.is_writable_stream_locked() {
            return Err(StreamError::WritableLocked);
        }
        let e = match stream.stored_error {
            Option::Some(e) => e,
            Option::None => Reason::Undefined,
        };
        let (ready_promise, closed_promise) = match stream.state {
            WritableStreamState::Writable => {
                let ready = if !stream.writable_stream_close_queued_or_in_flight() && stream.backpressure {
                    PromiseInit::Pending
                } else {
                    PromiseInit::Resolved
                };
                (ready, PromiseInit::Pending)
            },
            WritableStreamState::Erroring => (PromiseInit::Rejected(e), PromiseInit::Pending),
            WritableStreamState::Closed => (PromiseInit::Resolved, PromiseInit::Resolved),
            WritableStreamState::Errored => (PromiseInit::Rejected(e), PromiseInit::Rejected(e)),
        };
        stream.writer = Option::Some(id);
        Ok(WritableStreamDefaultWriter { id, ready_promise, closed_promise })
    }

    /// The writer locks the stream.
    pub open spec fn attached(self, s: WritableStreamView) -> bool {
        s.writer == Some(self.id)
    }

    /// Why a write of this writer to the stream `s` is refused, if it is: the
    /// writer was released, the stream errored, is closing or closed, or is erroring.
    pub open spec fn write_refusal(self, s: WritableStreamView) -> Option<Reason> {
        if !self.attached(s) {
            Some(Reason::Error(StreamError::WriteToReleasedWriter))
        } else if s.state == WritableStreamState::Errored {
            Some(s.stored_error->Some_0)
        } else if s.close_queued_or_in_flight() || s.state == WritableStreamState::Closed {
            Some(Reason::Error(StreamError::WriteClosing))
        } else if s.state == WritableStreamState::Erroring {
            Some(s.stored_error->Some_0)
        } else {
            None
        }
    }

    /// WritableStreamDefaultWriterGetDesiredSize.
    pub fn writable_stream_default_writer_get_desired_size(stream: &WritableStream) -> (r: DesiredSize)
        ensures
            stream@.state == WritableStreamState::Errored || stream@.state == WritableStreamState::Erroring
                ==> r == DesiredSize::Null,
            stream@.state == WritableStreamState::Closed ==> r == DesiredSize::Zero,
            stream@.state == WritableStreamState::Writable ==> r == DesiredSize::FromController,
    {
        match stream.state {
            WritableStreamState::Errored => DesiredSize::Null,
            WritableStreamState::Erroring => DesiredSize::Null,
            WritableStreamState::Closed => DesiredSize::Zero,
            WritableStreamState::Writable => DesiredSize::FromController,
        }
    }

    /// The public `desiredSize` of a writer: refused once released.
    pub fn desired_size(&self, stream: &WritableStream) -> (r: Result<DesiredSize, StreamError>)
        ensures
            !self.attached(stream@) ==> r == Err::<DesiredSize, StreamError>(StreamError::DesiredSizeReleasedWriter),
            self.attached(stream@) ==> r == Ok::<DesiredSize, StreamError>(
                match stream@.state {
                    WritableStreamState::Errored => DesiredSize::Null,
                    WritableStreamState::Erroring => DesiredSize::Null,
                    WritableStreamState::Closed => DesiredSize::Zero,
                    WritableStreamState::Writable => DesiredSize::FromController,
                },
            ),
    {
        if stream.writer != Option::Some(self.id) {
            return Err(StreamError::DesiredSizeReleasedWriter);
        }
        Ok(Self::writable_stream_default_writer_get_desired_size(stream))
    }

    /// WritableStreamDefaultWriterRelease: both promises of the writer are
    /// (made) rejected and the stream unlocked.
    pub fn writable_stream_default_writer_release(
        &self,
        stream: &mut WritableStream,
        effects: &mut Vec<WritableEffect>,
    )
        ensures
            final(stream)@ == (WritableStreamView { writer: None, ..old(stream)@ }),
            final(effects)@ == old(effects)@ + seq![
                WritableEffect::EnsureReadyRejected {
                    writer: self.id,
                    reason: Reason::Error(StreamError::WriterReleased),
                },
                WritableEffect::EnsureClosedRejected {
                    writer: self.id,
                    reason: Reason::Error(StreamError::WriterReleased),
                },
            ],
    {
        let e = Reason::Error(StreamError::WriterReleased);
        effects.push(WritableEffect::EnsureReadyRejected { writer: self.id, reason: e });
        effects.push(WritableEffect::EnsureClosedRejected { writer: self.id, reason: e });
        stream.writer = Option::None;
        assert(effects@ =~= old(effects)@ + seq![
            WritableEffect::EnsureReadyRejected { writer: self.id, reason: e },
            WritableEffect::EnsureClosedRejected { writer: self.id, reason: e },
        ]);
    }

    /// The public `releaseLock()`: a released writer does nothing.
    pub fn release_lock(&self, stream: &mut WritableStream, effects: &mut Vec<WritableEffect>)
        ensures
            !self.attached(old(stream)@) ==> final(stream)@ == old(stream)@ && final(effects)@ == old(effects)@,
            self.attached(old(stream)@) ==> final(stream)@ == (WritableStreamView { writer: None, ..old(stream)@ })
                && final(effects)@ == old(effects)@ + seq![
                WritableEffect::EnsureReadyRejected {
                    writer: self.id,
                    reason: Reason::Error(StreamError::WriterReleased),
                },
                WritableEffect::EnsureClosedRejected {
                    writer: self.id,
                    reason: Reason::Error(StreamError::WriterReleased),
                },
            ],
    {
        if stream.writer == Option::Some(self.id) {
            self.writable_stream_default_writer_release(stream, effects);
        }
    }

    /// The public `abort(reason)` of a writer, after the abort signal: refused
    /// once released, otherwise WritableStreamAbort.
    pub fn abort(
        &self,
        stream: &mut WritableStream,
        reason: Reason,
        promise: u64,
        effects: &mut Vec<WritableEffect>,
    ) -> (r: Result<AbortOutcome, StreamError>)
        requires
            old(stream)@.wf(),
        ensures
            final(stream)@.wf(),
            !self.attached(old(stream)@) ==> r == Err::<AbortOutcome, StreamError>(StreamError::AbortReleasedWriter)
                && final(stream)@ == old(stream)@ && final(effects)@ == old(effects)@,
            self.attached(old(stream)@) ==> (r matches Ok(outcome) && old(stream)@.abort_outcome(
                old(effects)@,
                reason,
                promise,
                outcome,
                final(stream)@,
                final(effects)@,
            )),
    {
        if stream.writer != Option::Some(self.id) {
            return Err(StreamError::AbortReleasedWriter);
        }
        Ok(stream.writable_stream_abort(reason, promise, effects))
    }

    /// The public `close()` of a writer: refused once released or while the
    /// stream is closing, otherwise WritableStreamClose.
    pub fn close(&self, stream: &mut WritableStream, promise: u64, effects: &mut Vec<WritableEffect>) -> (r: Result<u64, StreamError>)
        ensures
            !self.attached(old(stream)@) ==> r == Err::<u64, StreamError>(StreamError::CloseReleasedWriter),
            self.attached(old(stream)@) && old(stream)@.close_queued_or_in_flight() ==> r == Err::<u64, StreamError>(
                StreamError::CloseClosingStream,
            ),
            self.attached(old(stream)@) && !old(stream)@.close_queued_or_in_flight() && (old(stream)@.state
                == WritableStreamState::Closed || old(stream)@.state == WritableStreamState::Errored) ==> r == Err::<
                u64,
                StreamError,
            >(StreamError::CloseNotWritable),
            r is Err ==> final(stream)@ == old(stream)@ && final(effects)@ == old(effects)@,
            self.attached(old(stream)@) && !old(stream)@.close_queued_or_in_flight() && !(old(stream)@.state
                == WritableStreamState::Closed || old(stream)@.state == WritableStreamState::Errored) ==> r == Ok::<
                u64,
                StreamError,
            >(promise) && final(stream)@ == (WritableStreamView { close_request: Some(promise), ..old(stream)@ })
                && final(effects)@ == old(effects)@ + (if old(stream)@.backpressure && old(stream)@.state
                == WritableStreamState::Writable {
                seq![WritableEffect::ResolveReady { writer: self.id }]
            } else {
                seq![]
            }) + seq![WritableEffect::ControllerClose],
    {
        if stream.writer != Option::Some(self.id) {
            return Err(StreamError::CloseReleasedWriter);
        }
        if stream.writable_stream_close_queued_or_in_flight() {
            return Err(StreamError::CloseClosingStream);
        }
        stream.writable_stream_close(promise, effects)
    }

    /// WritableStreamDefaultWriterWrite once the host ran the size algorithm
    /// (`size`, or the error it threw, which errors a writable stream and
    /// counts as size 1): a released writer, an errored, closing, closed or
    /// erroring stream refuse the write; otherwise the write request `promise`
    /// is queued and the controller writes the chunk.
    pub fn writable_stream_default_writer_write(
        &self,
        stream: &mut WritableStream,
        chunk: u64,
        size: Result<u64, Reason>,
        promise: u64,
        effects: &mut Vec<WritableEffect>,
    ) -> (r: Result<u64, Reason>)
        requires
            old(stream)@.wf(),
        ensures
            final(stream)@.wf(),
            size is Ok ==> r == match self.write_refusal(old(stream)@) {
                Some(e) => Err::<u64, Reason>(e),
                None => Ok::<u64, Reason>(promise),
            },
            size is Ok && r is Err ==> final(stream)@ == old(stream)@ && final(effects)@ == old(effects)@,
            size is Ok && r is Ok ==> final(stream)@ == (WritableStreamView {
                write_requests: old(stream)@.write_requests.push(promise),
                ..old(stream)@
            }) && final(effects)@ == old(effects)@.push(
                WritableEffect::ControllerWrite { chunk, size: Some(size->Ok_0) },
            ),
            size matches Err(e) ==> {
                &&& r == Err::<u64, Reason>(self.write_refusal(final(stream)@)->Some_0)
                &&& self.write_refusal(final(stream)@) is Some
                &&& old(stream)@.state == WritableStreamState::Writable ==> old(stream)@.start_erroring_outcome(
                    old(effects)@.push(WritableEffect::ControllerClearAlgorithms),
                    e,
                    final(stream)@,
                    final(effects)@,
                )
                &&& old(stream)@.state != WritableStreamState::Writable ==> final(stream)@ == old(stream)@
                    && final(effects)@ == old(effects)@
            },
    {
        let chunk_size = match size {
            Ok(s) => Option::Some(s),
            Err(e) => {
                stream.writable_stream_default_controller_error_if_needed(e, effects);
                Option::None
            },
        };
        if stream.writer != Option::Some(self.id) {
            return Err(Reason::Error(StreamError::WriteToReleasedWriter));
        }
        let state = stream.state;
        if state == WritableStreamState::Errored {
            let e = match stream.stored_error {
                Option::Some(e) => e,
                Option::None => Reason::Undefined,
            };
            return Err(e);
        }
        if stream.writable_stream_close_queued_or_in_flight() || state == WritableStreamState::Closed {
            return Err(Reason::Error(StreamError::WriteClosing));
        }
        if state == WritableStreamState::Erroring {
            let e = match stream.stored_error {
                Option::Some(e) => e,
                Option::None => Reason::Undefined,
            };
            return Err(e);
        }
        stream.write_requests.push(promise);
        effects.push(WritableEffect::ControllerWrite { chunk, size: chunk_size });
        Ok(promise)
    }
}

} // verus!
