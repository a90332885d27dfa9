//! The readers of a readable stream: acquiring one locks the stream, reading
//! goes to the controller, and releasing one unlocks the stream and fails its
//! pending requests.
use vstd::prelude::*;
use crate::effect::{Reason, ReadableEffect, StreamError, spec_element_size};
use crate::readable::{
    CancelOutcome, ClosedPromise, ReadableStream, ReadableStreamController, ReadableStreamGenericReader,
    ReadableStreamState, ReadableStreamView, ReaderKind, error_request_effects,
};
use crate::byte_controller::{ArrayBufferView, ReadableStreamByteController};

verus! {

/// A default reader.
#[derive(Clone, Copy, PartialEq, Eq, Structural, Debug)]
pub struct ReadableStreamDefaultReader {
    pub generic: ReadableStreamGenericReader,
}

/// A BYOB reader.
#[derive(Clone, Copy, PartialEq, Eq, Structural, Debug)]
pub struct ReadableStreamBYOBReader {
    pub generic: ReadableStreamGenericReader,
}

/// How a new reader's closed promise starts, given the stream's state.
pub open spec fn initial_closed_promise(s: ReadableStreamView) -> ClosedPromise {
    match s.state {
        ReadableStreamState::Readable => ClosedPromise::Pending,
        ReadableStreamState::Closed => ClosedPromise::Resolved,
        ReadableStreamState::Errored => ClosedPromise::Rejected(s.stored_error->Some_0),
    }
}

/// The stream after `reader` locked it.
pub open spec fn locked_by(s: ReadableStreamView, reader: ReadableStreamGenericReader) -> ReadableStreamView {
    ReadableStreamView { reader: Some(reader), ..s }
}

/// ReadableStreamReaderGenericInitialize: the reader `id` of kind `kind` locks
/// the stream; its closed promise starts pending, resolved or rejected as
/// the stream is readable, closed or errored.
fn readable_stream_reader_generic_initialize(
    stream: &mut ReadableStream,
    id: u64,
    kind: ReaderKind,
) -> (generic: ReadableStreamGenericReader)
    requires
        old(stream)@.wf(),
        old(stream).reader is None,
        kind == ReaderKind::ByobReader ==> old(stream).byte_source,
    ensures
        generic == (ReadableStreamGenericReader { id, kind, closed_promise: initial_closed_promise(old(stream)@) }),
        final(stream)@ == locked_by(old(stream)@, generic),
        final(stream)@.wf(),
{
    let closed_promise = match stream.state {
        ReadableStreamState::Readable => ClosedPromise::Pending,
        ReadableStreamState::Closed => ClosedPromise::Resolved,
        ReadableStreamState::Errored => {
            let e = match stream.stored_error {
                Option::Some(e) => e,
                Option::None => Reason::Undefined,
            };
            ClosedPromise::Rejected(e)
        },
    };
    let generic = ReadableStreamGenericReader { id, kind, closed_promise };
    stream.reader = Option::Some(generic);
    generic
}

/// The steps ReadableStreamReaderGenericRelease hands to the host for the
/// stream's reader.
pub open spec fn release_closed_effect(s: ReadableStreamView) -> ReadableEffect {
    let id = s.reader->Some_0.id;
    let e = Reason::Error(StreamError::ReaderReleasedClosed);
    if s.state == ReadableStreamState::Readable {
        ReadableEffect::RejectClosed { reader: id, reason: e }
    } else {
        ReadableEffect::ReplaceClosedRejected { reader: id, reason: e }
    }
}

/// The stream after its reader was released.
pub open spec fn unlocked(s: ReadableStreamView) -> ReadableStreamView {
    ReadableStreamView { reader: None, read_requests: Seq::empty(), ..s }
}

/// ReadableStreamDefaultReaderRelease and ReadableStreamBYOBReaderRelease:
/// the reader's closed promise is rejected (or replaced by a rejected one),
/// the controller's release steps run, the stream is unlocked and the
/// reader's pending requests fail with a TypeError.
pub fn readable_stream_reader_release(
    stream: &mut ReadableStream,
    controller: &mut ReadableStreamController,
    effects: &mut Vec<ReadableEffect>,
)
    requires
        old(stream)@.wf(),
        old(stream).reader is Some,
        old(controller).fits(old(stream)@),
    ensures
        final(stream)@ == unlocked(old(stream)@),
        final(stream)@.wf(),
        final(controller).fits(final(stream)@),
        final(effects)@ == old(effects)@.push(release_closed_effect(old(stream)@)) + error_request_effects(
            old(stream).read_requests@,
            Reason::Error(StreamError::ReaderReleased),
        ),
        final(controller).released_from(*old(controller)),
{
    let id = match stream.reader {
        Option::Some(r) => r.id,
        Option::None => 0,
    };
    let e = Reason::Error(StreamError::ReaderReleasedClosed);
    if stream.state == ReadableStreamState::Readable {
        effects.push(ReadableEffect::RejectClosed { reader: id, reason: e });
    } else {
        effects.push(ReadableEffect::ReplaceClosedRejected { reader: id, reason: e });
    }
    match controller {
        ReadableStreamController::ReadableStreamDefaultController(_) => {},
        ReadableStreamController::ReadableStreamByteController(c) => {
            c.release_steps();
        },
    }
    stream.error_read_requests(Reason::Error(StreamError::ReaderReleased), effects);
    stream.reader = Option::None;
    assert(stream@ =~= unlocked(old(stream)@));
}

/// The reader switch of a byte tee's pull: the source's reader is released
/// (its closed promise rejected, the controller's release steps run, its
/// pending requests failed with a TypeError), then the reader `new_reader_id`
/// locks the source: a BYOB reader when `byob`, else a default reader. The
/// host forwards the new reader's errors to the branches.
pub fn switch_reader(
    stream: &mut ReadableStream,
    controller: &mut ReadableStreamController,
    byob: bool,
    new_reader_id: u64,
    effects: &mut Vec<ReadableEffect>,
) -> (r: ReadableStreamReader)
    requires
        old(stream)@.wf(),
        old(stream).reader is Some,
        old(controller).fits(old(stream)@),
        byob ==> old(stream).byte_source,
    ensures
        final(stream)@.wf(),
        final(controller).fits(final(stream)@),
        final(controller).released_from(*old(controller)),
        final(effects)@ == old(effects)@.push(release_closed_effect(old(stream)@)) + error_request_effects(
            old(stream).read_requests@,
            Reason::Error(StreamError::ReaderReleased),
        ),
        ({
            let g = ReadableStreamGenericReader {
                id: new_reader_id,
                kind: if byob { ReaderKind::ByobReader } else { ReaderKind::DefaultReader },
                closed_promise: initial_closed_promise(old(stream)@),
            };
            &&& final(stream)@ == locked_by(unlocked(old(stream)@), g)
            &&& byob ==> r == ReadableStreamReader::ReadableStreamBYOBReader(ReadableStreamBYOBReader { generic: g })
            &&& !byob ==> r == ReadableStreamReader::ReadableStreamDefaultReader(
                ReadableStreamDefaultReader { generic: g },
            )
        }),
{
    readable_stream_reader_release(stream, controller, effects);
    if byob {
        let generic = readable_stream_reader_generic_initialize(stream, new_reader_id, ReaderKind::ByobReader);
        ReadableStreamReader::ReadableStreamBYOBReader(ReadableStreamBYOBReader { generic })
    } else {
        let generic = readable_stream_reader_generic_initialize(stream, new_reader_id, ReaderKind::DefaultReader);
        ReadableStreamReader::ReadableStreamDefaultReader(ReadableStreamDefaultReader { generic })
    }
}

/// The reader `reader_id` locks the stream.
pub open spec fn attached(s: ReadableStreamView, reader_id: u64) -> bool {
    s.reader matches Some(r) && r.id == reader_id
}

/// The public `releaseLock()` of a reader: a reader that no longer locks the
/// stream does nothing.
pub fn release_lock(
    stream: &mut ReadableStream,
    controller: &mut ReadableStreamController,
    reader_id: u64,
    effects: &mut Vec<ReadableEffect>,
)
    requires
        old(stream)@.wf(),
        old(controller).fits(old(stream)@),
    ensures
        final(stream)@.wf(),
        final(controller).fits(final(stream)@),
        !attached(old(stream)@, reader_id) ==> final(stream)@ == old(stream)@ && final(effects)@ == old(effects)@
            && *final(controller) == *old(controller),
        attached(old(stream)@, reader_id) ==> final(controller).released_from(*old(controller)),
        attached(old(stream)@, reader_id) ==> final(stream)@ == unlocked(old(stream)@) && final(effects)@
            == old(effects)@.push(release_closed_effect(old(stream)@)) + error_request_effects(
            old(stream).read_requests@,
            Reason::Error(StreamError::ReaderReleased),
        ),
{
    let is_attached = match stream.reader {
        Option::Some(r) => r.id == reader_id,
        Option::None => false,
    };
    if is_attached {
        readable_stream_reader_release(stream, controller, effects);
    }
}

/// The public `cancel(reason)` of a reader: refused for a reader that no
/// longer locks the stream, otherwise ReadableStreamCancel.
pub fn reader_cancel(
    stream: &mut ReadableStream,
    controller: &mut ReadableStreamController,
    reader_id: u64,
    reason: Reason,
    effects: &mut Vec<ReadableEffect>,
) -> (r: Result<CancelOutcome, StreamError>)
    requires
        old(stream)@.wf(),
        old(controller).fits(old(stream)@),
    ensures
        final(stream)@.wf(),
        final(controller).fits(final(stream)@),
        !attached(old(stream)@, reader_id) ==> r == Err::<CancelOutcome, StreamError>(StreamError::CancelReleasedReader)
            && final(stream)@ == old(stream)@ && final(effects)@ == old(effects)@ && *final(controller) == *old(controller),
        attached(old(stream)@, reader_id) ==> r is Ok && final(stream).disturbed,
        attached(old(stream)@, reader_id) && old(stream).state == ReadableStreamState::Readable ==> r == Ok::<
            CancelOutcome,
            StreamError,
        >(CancelOutcome::FromCancelAlgorithm) && final(stream)@ == old(stream)@.canceled()
            && final(effects)@ == old(effects)@ + old(stream)@.cancel_close_effects() + old(controller).cancel_effects(
            reason,
        ) && final(controller).canceled_from(*old(controller)),
        attached(old(stream)@, reader_id) && old(stream).state == ReadableStreamState::Closed ==> r == Ok::<
            CancelOutcome,
            StreamError,
        >(CancelOutcome::Resolved) && final(stream)@ == (ReadableStreamView { disturbed: true, ..old(stream)@ })
            && final(effects)@ == old(effects)@ && *final(controller) == *old(controller),
        attached(old(stream)@, reader_id) && old(stream).state == ReadableStreamState::Errored ==> r == Ok::<
            CancelOutcome,
            StreamError,
        >(CancelOutcome::Rejected(old(stream).stored_error->Some_0)) && final(stream)@ == (ReadableStreamView {
            disturbed: true,
            ..old(stream)@
        }) && final(effects)@ == old(effects)@ && *final(controller) == *old(controller),
{
    let is_attached = match stream.reader {
        Option::Some(r) => r.id == reader_id,
        Option::None => false,
    };
    if !is_attached {
        return Err(StreamError::CancelReleasedReader);
    }
    Ok(stream.readable_stream_cancel(controller, reason, effects))
}

/// What ReadableStreamDefaultReaderRead does with the read request `request`
/// on the stream `s0` with the controller `c0`, after the steps `e0` (a byte
/// controller given the buffer the host allocated, `allocated`): the stream,
/// now disturbed, becomes `s1`, the controller `c1`, and the steps `e1`. A
/// closed stream closes the request, an errored one errors it with its
/// stored error, and a readable one hands it to its controller's pull steps.
pub open spec fn default_read_outcome(
    s0: ReadableStreamView,
    c0: ReadableStreamController,
    e0: Seq<ReadableEffect>,
    request: u64,
    allocated: Result<u64, Reason>,
    s1: ReadableStreamView,
    c1: ReadableStreamController,
    e1: Seq<ReadableEffect>,
) -> bool {
    let s = ReadableStreamView { disturbed: true, ..s0 };
    &&& s0.state == ReadableStreamState::Closed ==> s1 == s && c1 == c0 && e1 == e0.push(
        ReadableEffect::ReadClose { request, closing_chunk: None },
    )
    &&& s0.state == ReadableStreamState::Errored ==> s1 == s && c1 == c0 && e1 == e0.push(
        ReadableEffect::ReadError { request, reason: s0.stored_error->Some_0 },
    )
    &&& s0.state == ReadableStreamState::Readable ==> match c0 {
        ReadableStreamController::ReadableStreamDefaultController(c) => c1 matches ReadableStreamController::ReadableStreamDefaultController(
            d,
        ) && c.pull_steps_outcome(s, e0, request, d, s1, e1),
        ReadableStreamController::ReadableStreamByteController(c) => c1 matches ReadableStreamController::ReadableStreamByteController(
            d,
        ) && c.pull_steps_outcome(s, e0, request, allocated, d, s1, e1),
    }
}

impl ReadableStreamDefaultReader {
    /// SetUpReadableStreamDefaultReader: the reader `id` locks the stream,
    /// unless it is locked already.
    pub fn new(stream: &mut ReadableStream, id: u64) -> (r: Result<Self, StreamError>)
        requires
            old(stream)@.wf(),
        ensures
            final(stream)@.wf(),
            old(stream).reader is Some ==> r == Err::<Self, StreamError>(StreamError::ReadableLocked)
                && final(stream)@ == old(stream)@,
            old(stream).reader is None ==> (r matches Ok(reader) && reader.generic == (
            ReadableStreamGenericReader {
                id,
                kind: ReaderKind::DefaultReader,
                closed_promise: initial_closed_promise(old(stream)@),
            }) && final(stream)@ == locked_by(old(stream)@, reader.generic)),
    {
        if stream.is_readable_stream_locked() {
            return Err(StreamError::ReadableLocked);
        }
        let generic = readable_stream_reader_generic_initialize(stream, id, ReaderKind::DefaultReader);
        Ok(ReadableStreamDefaultReader { generic })
    }

    /// ReadableStreamDefaultReaderRead: the stream is disturbed; a closed
    /// stream closes the request, an errored one errors it with its stored
    /// error, and a readable one hands it to its controller's pull steps (a
    /// byte controller with the buffer the host allocated, see
    /// `pull_steps_buffer_size`).
    pub fn readable_stream_default_reader_read(
        stream: &mut ReadableStream,
        controller: &mut ReadableStreamController,
        request: u64,
        allocated: Result<u64, Reason>,
        effects: &mut Vec<ReadableEffect>,
    )
        requires
            old(stream)@.wf(),
            old(stream)@.has_default_reader(),
            old(controller).fits(old(stream)@),
        ensures
            final(stream)@.wf(),
            final(controller).fits(final(stream)@),
            final(stream).disturbed,
            final(stream).reader == old(stream).reader,
            old(effects)@.is_prefix_of(final(effects)@),
            default_read_outcome(
                old(stream)@,
                *old(controller),
                old(effects)@,
                request,
                allocated,
                final(stream)@,
                *final(controller),
                final(effects)@,
            ),
    {
        stream.disturbed = true;
        match stream.state {
            ReadableStreamState::Closed => {
                effects.push(ReadableEffect::ReadClose { request, closing_chunk: Option::None });
            },
            ReadableStreamState::Errored => {
                let e = match stream.stored_error {
                    Option::Some(e) => e,
                    Option::None => Reason::Undefined,
                };
                effects.push(ReadableEffect::ReadError { request, reason: e });
            },
            ReadableStreamState::Readable => {
                match controller {
                    ReadableStreamController::ReadableStreamDefaultController(c) => {
                        c.pull_steps(stream, request, effects);
                    },
                    ReadableStreamController::ReadableStreamByteController(c) => {
                        c.pull_steps(stream, request, allocated, effects);
                    },
                }
            },
        }
    }

    /// The public `read()` of a default reader: refused for a reader that no
    /// longer locks the stream.
    pub fn read(
        stream: &mut ReadableStream,
        controller: &mut ReadableStreamController,
        reader_id: u64,
        request: u64,
        allocated: Result<u64, Reason>,
        effects: &mut Vec<ReadableEffect>,
    ) -> (r: Result<(), StreamError>)
        requires
            old(stream)@.wf(),
            old(controller).fits(old(stream)@),
        ensures
            final(stream)@.wf(),
            final(controller).fits(final(stream)@),
            !(attached(old(stream)@, reader_id) && old(stream)@.has_default_reader()) ==> r == Err::<
                (),
                StreamError,
            >(StreamError::ReadReleasedReader) && final(stream)@ == old(stream)@ && final(effects)@ == old(effects)@
                && *final(controller) == *old(controller),
            attached(old(stream)@, reader_id) && old(stream)@.has_default_reader() ==> r is Ok && final(stream).disturbed
                && default_read_outcome(
                old(stream)@,
                *old(controller),
                old(effects)@,
                request,
                allocated,
                final(stream)@,
                *final(controller),
                final(effects)@,
            ),
    {
        let ok = match stream.reader {
            Option::Some(r) => r.id == reader_id && match r.kind {
                ReaderKind::DefaultReader => true,
                ReaderKind::ByobReader => false,
            },
            Option::None => false,
        };
        if !ok {
            return Err(StreamError::ReadReleasedReader);
        }
        Self::readable_stream_default_reader_read(stream, controller, request, allocated, effects);
        Ok(())
    }
}

/// Why a BYOB read of `view` for at least `min` elements is refused for the
/// view and `min` alone, if it is.
pub open spec fn byob_view_refusal(view: ArrayBufferView, view_detached: bool, min: u64) -> Option<StreamError> {
    let es = spec_element_size(view.view_type);
    if view.byte_length == 0 {
        Some(StreamError::ViewZeroLength)
    } else if view.buffer_byte_length == 0 {
        Some(StreamError::ViewBufferZeroLength)
    } else if view_detached {
        Some(StreamError::ViewDetached)
    } else if min == 0 {
        Some(StreamError::MinZero)
    } else if view.view_type != crate::effect::ViewType::DataView && min > view.byte_length as nat / es {
        Some(StreamError::MinExceedsLength)
    } else if view.view_type == crate::effect::ViewType::DataView && min > view.byte_length {
        Some(StreamError::MinExceedsByteLength)
    } else {
        None
    }
}

/// Why a BYOB read of `view` for at least `min` elements is refused before it
/// reaches the stream, if it is: the view checks first, then a reader that no
/// longer locks the stream.
pub open spec fn byob_read_refusal(
    s: ReadableStreamView,
    reader_id: u64,
    view: ArrayBufferView,
    view_detached: bool,
    min: u64,
) -> Option<StreamError> {
    match byob_view_refusal(view, view_detached, min) {
        Some(e) => Some(e),
        None => if !(attached(s, reader_id) && s.has_byob_reader()) {
            Some(StreamError::ReadReleasedByobReader)
        } else {
            None
        },
    }
}

impl ReadableStreamBYOBReader {
    /// SetUpReadableStreamBYOBReader: the reader `id` locks the stream, unless
    /// it is locked already or has no byte source.
    pub fn new(stream: &mut ReadableStream, id: u64) -> (r: Result<Self, StreamError>)
        requires
            old(stream)@.wf(),
        ensures
            final(stream)@.wf(),
            old(stream).reader is Some ==> r == Err::<Self, StreamError>(StreamError::ReadableLocked)
                && final(stream)@ == old(stream)@,
            old(stream).reader is None && !old(stream).byte_source ==> r == Err::<Self, StreamError>(
                StreamError::NotByteSource,
            ) && final(stream)@ == old(stream)@,
            old(stream).reader is None && old(stream).byte_source ==> (r matches Ok(reader) && reader.generic == (
            ReadableStreamGenericReader {
                id,
                kind: ReaderKind::ByobReader,
                closed_promise: initial_closed_promise(old(stream)@),
            }) && final(stream)@ == locked_by(old(stream)@, reader.generic)),
    {
        if stream.is_readable_stream_locked() {
            return Err(StreamError::ReadableLocked);
        }
        if !stream.byte_source {
            return Err(StreamError::NotByteSource);
        }
        let generic = readable_stream_reader_generic_initialize(stream, id, ReaderKind::ByobReader);
        Ok(ReadableStreamBYOBReader { generic })
    }

    /// The checks the public `read(view, options)` of a BYOB reader makes on
    /// the view and `min` (also for a reader that was released).
    pub fn validate_view(view: ArrayBufferView, view_detached: bool, min: u64) -> (r: Result<(), StreamError>)
        ensures
            r == match byob_view_refusal(view, view_detached, min) {
                Some(e) => Err::<(), StreamError>(e),
                None => Ok(()),
            },
    {
        if view.byte_length == 0 {
            return Err(StreamError::ViewZeroLength);
        }
        if view.buffer_byte_length == 0 {
            return Err(StreamError::ViewBufferZeroLength);
        }
        if view_detached {
            return Err(StreamError::ViewDetached);
        }
        if min == 0 {
            return Err(StreamError::MinZero);
        }
        if view.view_type.is_typed_array() {
            let length = view.byte_length / view.view_type.element_size();
            if min > length as u64 {
                return Err(StreamError::MinExceedsLength);
            }
        } else {
            if min > view.byte_length as u64 {
                return Err(StreamError::MinExceedsByteLength);
            }
        }
        Ok(())
    }

    /// The checks the public `read(view, options)` of a BYOB reader makes
    /// before touching the stream or the view's buffer.
    pub fn validate_read(
        stream: &ReadableStream,
        reader_id: u64,
        view: ArrayBufferView,
        view_detached: bool,
        min: u64,
    ) -> (r: Result<(), StreamError>)
        ensures
            r == match byob_read_refusal(stream@, reader_id, view, view_detached, min) {
                Some(e) => Err::<(), StreamError>(e),
                None => Ok(()),
            },
    {
        if let Err(e) = Self::validate_view(view, view_detached, min) {
            return Err(e);
        }
        let ok = match stream.reader {
            Option::Some(r) => r.id == reader_id && match r.kind {
                ReaderKind::DefaultReader => false,
                ReaderKind::ByobReader => true,
            },
            Option::None => false,
        };
        if !ok {
            return Err(StreamError::ReadReleasedByobReader);
        }
        Ok(())
    }

    /// Whether a BYOB read transfers the view's buffer (the stream is not
    /// errored); the host transfers it before `readable_stream_byob_reader_read`.
    pub fn read_transfers_buffer(stream: &ReadableStream) -> (r: bool)
        ensures
            r == (stream.state != ReadableStreamState::Errored),
    {
        stream.state != ReadableStreamState::Errored
    }

    /// ReadableStreamBYOBReaderRead, once `validate_read` accepted the read:
    /// the stream is disturbed; an errored stream errors the request with its
    /// stored error, otherwise ReadableByteStreamControllerPullInto runs.
    pub fn readable_stream_byob_reader_read(
        stream: &mut ReadableStream,
        controller: &mut ReadableStreamByteController,
        reader_id: u64,
        view: ArrayBufferView,
        min: u64,
        request: u64,
        transferred: Result<u64, Reason>,
        effects: &mut Vec<ReadableEffect>,
    )
        requires
            old(stream)@.wf(),
            old(controller).wf(),
            byob_read_refusal(old(stream)@, reader_id, view, false, min) is None,
            view.byte_length as nat % spec_element_size(view.view_type) == 0,
            view.byte_offset + view.byte_length <= usize::MAX,
        ensures
            final(stream)@.wf(),
            final(controller).wf(),
            final(stream).disturbed,
            final(stream).reader == old(stream).reader,
            old(stream).state == ReadableStreamState::Errored ==> final(effects)@ == old(effects)@.push(
                ReadableEffect::ReadError { request, reason: old(stream).stored_error->Some_0 },
            ) && final(stream)@ == (ReadableStreamView { disturbed: true, ..old(stream)@ })
                && *final(controller) == *old(controller),
            old(stream).state != ReadableStreamState::Errored ==> old(controller).pull_into_outcome(
                ReadableStreamView { disturbed: true, ..old(stream)@ },
                old(effects)@,
                view,
                min as usize,
                request,
                transferred,
                *final(controller),
                final(stream)@,
                final(effects)@,
            ),
            old(effects)@.is_prefix_of(final(effects)@),
    {
        stream.disturbed = true;
        if stream.state == ReadableStreamState::Errored {
            let e = match stream.stored_error {
                Option::Some(e) => e,
                Option::None => Reason::Undefined,
            };
            effects.push(ReadableEffect::ReadError { request, reason: e });
            return;
        }
        let es = view.view_type.element_size();
        proof {
            let bl = view.byte_length as int;
            let esi = es as int;
            if view.view_type != crate::effect::ViewType::DataView {
                assert(min * esi <= bl) by (nonlinear_arith)
                    requires
                        min <= bl / esi,
                        esi > 0,
                        bl >= 0,
                ;
            }
        }
        controller.readable_byte_stream_controller_pull_into(
            stream,
            view,
            min as usize,
            request,
            transferred,
            effects,
        );
    }
}


/// A reader handed out by `getReader()`.
#[derive(Clone, Copy, PartialEq, Eq, Structural, Debug)]
pub enum ReadableStreamReader {
    ReadableStreamDefaultReader(ReadableStreamDefaultReader),
    ReadableStreamBYOBReader(ReadableStreamBYOBReader),
}

impl ReadableStream {
    /// The public `getReader(options)`: a BYOB reader when the mode is
    /// "byob", else a default reader, locking the stream as `id`.
    pub fn get_reader(&mut self, byob_mode: bool, id: u64) -> (r: Result<ReadableStreamReader, StreamError>)
        requires
            old(self)@.wf(),
        ensures
            final(self)@.wf(),
            old(self).reader is Some ==> r == Err::<ReadableStreamReader, StreamError>(StreamError::ReadableLocked)
                && final(self)@ == old(self)@,
            old(self).reader is None && byob_mode && !old(self).byte_source ==> r == Err::<
                ReadableStreamReader,
                StreamError,
            >(StreamError::NotByteSource) && final(self)@ == old(self)@,
            old(self).reader is None && !byob_mode ==> (r matches Ok(
                ReadableStreamReader::ReadableStreamDefaultReader(rd),
            ) && rd.generic == (ReadableStreamGenericReader {
                id,
                kind: ReaderKind::DefaultReader,
                closed_promise: initial_closed_promise(old(self)@),
            }) && final(self)@ == locked_by(old(self)@, rd.generic)),
            old(self).reader is None && byob_mode && old(self).byte_source ==> (r matches Ok(
                ReadableStreamReader::ReadableStreamBYOBReader(rd),
            ) && rd.generic == (ReadableStreamGenericReader {
                id,
                kind: ReaderKind::ByobReader,
                closed_promise: initial_closed_promise(old(self)@),
            }) && final(self)@ == locked_by(old(self)@, rd.generic)),
    {
        if byob_mode {
            match ReadableStreamBYOBReader::new(self, id) {
                Ok(rd) => Ok(ReadableStreamReader::ReadableStreamBYOBReader(rd)),
                Err(e) => Err(e),
            }
        } else {
            match ReadableStreamDefaultReader::new(self, id) {
                Ok(rd) => Ok(ReadableStreamReader::ReadableStreamDefaultReader(rd)),
                Err(e) => Err(e),
            }
        }
    }

    /// The public `cancel(reason)`: refused while the stream has a reader,
    /// otherwise ReadableStreamCancel.
    pub fn cancel(
        &mut self,
        controller: &mut ReadableStreamController,
        reason: Reason,
        effects: &mut Vec<ReadableEffect>,
    ) -> (r: Result<CancelOutcome, StreamError>)
        requires
            old(self)@.wf(),
            old(controller).fits(old(self)@),
        ensures
            final(self)@.wf(),
            final(controller).fits(final(self)@),
            old(self).reader is Some ==> r == Err::<CancelOutcome, StreamError>(StreamError::CancelLockedStream)
                && final(self)@ == old(self)@ && final(effects)@ == old(effects)@ && *final(controller) == *old(controller),
            old(self).reader is None && old(self).state == ReadableStreamState::Readable ==> r == Ok::<
                CancelOutcome,
                StreamError,
            >(CancelOutcome::FromCancelAlgorithm) && final(self)@ == old(self)@.canceled() && final(effects)@
                == old(effects)@ + old(controller).cancel_effects(reason) && final(controller).canceled_from(
                *old(controller),
            ),
            old(self).reader is None && old(self).state == ReadableStreamState::Closed ==> r == Ok::<
                CancelOutcome,
                StreamError,
            >(CancelOutcome::Resolved) && final(self)@ == (ReadableStreamView { disturbed: true, ..old(self)@ })
                && final(effects)@ == old(effects)@ && *final(controller) == *old(controller),
            old(self).reader is None && old(self).state == ReadableStreamState::Errored ==> r == Ok::<
                CancelOutcome,
                StreamError,
            >(CancelOutcome::Rejected(old(self).stored_error->Some_0)) && final(self)@ == (ReadableStreamView {
                disturbed: true,
                ..old(self)@
            }) && final(effects)@ == old(effects)@ && *final(controller) == *old(controller),
    {
        if self.is_readable_stream_locked() {
            return Err(StreamError::CancelLockedStream);
        }
        let r = self.readable_stream_cancel(controller, reason, effects);
        proof {
            if old(self).state == ReadableStreamState::Readable {
                assert(old(self)@.cancel_close_effects() =~= seq![]);
            }
        }
        Ok(r)
    }

    /// The constructor for an underlying source of type "bytes", once the
    /// host read the strategy: a size function is refused, then an invalid
    /// high water mark, then an `autoAllocateChunkSize` of 0.
    pub fn new_byte_stream(
        strategy_has_size: bool,
        high_water_mark: Result<usize, StreamError>,
        auto_allocate_chunk_size: Option<usize>,
    ) -> (r: Result<(ReadableStream, ReadableStreamController), StreamError>)
        ensures
            strategy_has_size ==> r == Err::<(ReadableStream, ReadableStreamController), StreamError>(
                StreamError::ByteStrategyWithSize,
            ),
            !strategy_has_size && high_water_mark is Err ==> r == Err::<
                (ReadableStream, ReadableStreamController),
                StreamError,
            >(high_water_mark->Err_0),
            !strategy_has_size && high_water_mark is Ok && auto_allocate_chunk_size == Some(0usize) ==> r
                == Err::<(ReadableStream, ReadableStreamController), StreamError>(StreamError::AutoAllocateZero),
            !strategy_has_size && high_water_mark is Ok && auto_allocate_chunk_size != Some(0usize) ==> (r
                matches Ok((s, c)) && s@.wf() && s.byte_source && s.state == ReadableStreamState::Readable
                && s.reader is None && !s.disturbed && c.fits(s@) && (c matches ReadableStreamController::ReadableStreamByteController(
                bc,
            ) && bc.strategy_hwm == high_water_mark->Ok_0 && bc.auto_allocate_chunk_size
                == auto_allocate_chunk_size && bc.is_fresh())),
    {
        if strategy_has_size {
            return Err(StreamError::ByteStrategyWithSize);
        }
        let hwm = match high_water_mark {
            Ok(h) => h,
            Err(e) => {
                return Err(e);
            },
        };
        match ReadableStreamByteController::set_up_readable_byte_stream_controller_from_underlying_source(
            hwm,
            auto_allocate_chunk_size,
        ) {
            Ok(c) => Ok((ReadableStream::new(true), ReadableStreamController::ReadableStreamByteController(c))),
            Err(e) => Err(e),
        }
    }

    /// The constructor for any other underlying source, once the host
    /// validated the strategy's high water mark.
    pub fn new_default_stream(high_water_mark: Result<(), StreamError>) -> (r: Result<
        (ReadableStream, ReadableStreamController),
        StreamError,
    >)
        ensures
            high_water_mark is Err ==> r == Err::<(ReadableStream, ReadableStreamController), StreamError>(
                high_water_mark->Err_0,
            ),
            high_water_mark is Ok ==> (r matches Ok((s, c)) && s@.wf() && !s.byte_source && s.state
                == ReadableStreamState::Readable && s.reader is None && !s.disturbed && c.fits(s@) && (c matches ReadableStreamController::ReadableStreamDefaultController(
                dc,
            ) && !dc.started && !dc.close_requested && !dc.pulling && !dc.pull_again && !dc.algorithms_cleared
                && dc.queue@.len() == 0)),
    {
        match high_water_mark {
            Err(e) => Err(e),
            Ok(()) => Ok(
                (
                    ReadableStream::new(false),
                    ReadableStreamController::ReadableStreamDefaultController(
                        crate::default_controller::ReadableStreamDefaultController::new(),
                    ),
                ),
            ),
        }
    }

    /// The public `locked` attribute.
    pub fn locked(&self) -> (r: bool)
        ensures
            r == (self.reader is Some),
    {
        self.is_readable_stream_locked()
    }
}


/// The state of a default tee before its first read.
pub open spec fn fresh_default_tee(clone_for_branch_2: bool) -> crate::tee::ReadableStreamDefaultTee {
    crate::tee::ReadableStreamDefaultTee {
        reading: false,
        read_again: false,
        reason_1: None,
        reason_2: None,
        clone_for_branch_2,
    }
}

/// The state of a byte tee before its first read.
pub open spec fn fresh_byte_tee() -> crate::byte_tee::ReadableByteStreamTee {
    crate::byte_tee::ReadableByteStreamTee {
        reading: false,
        read_again_for_branch_1: false,
        read_again_for_branch_2: false,
        reason_1: None,
        reason_2: None,
        reader_is_byob: false,
    }
}

/// The shared state of a new tee: that of a default stream or of a byte stream.
#[derive(Clone, Copy, PartialEq, Eq, Structural, Debug)]
pub enum ReadableStreamTeeState {
    Default(crate::tee::ReadableStreamDefaultTee),
    Byte(crate::byte_tee::ReadableByteStreamTee),
}

/// A new tee: the default reader that locks the source, the state the two
/// branches share, and the two branch streams with their controllers.
pub struct TeeSetUp {
    pub reader: ReadableStreamDefaultReader,
    pub state: ReadableStreamTeeState,
    pub branch_1: ReadableStream,
    pub controller_1: ReadableStreamController,
    pub branch_2: ReadableStream,
    pub controller_2: ReadableStreamController,
}

/// A branch of a new tee: a readable stream without reader or request, of
/// the source's kind (`byte`), whose controller was just set up and has not
/// started; a byte branch has a high water mark of 0 and no auto-allocate
/// chunk size.
pub open spec fn fresh_branch(s: ReadableStream, c: ReadableStreamController, byte: bool) -> bool {
    &&& s@.wf()
    &&& s.state == ReadableStreamState::Readable
    &&& !s.disturbed
    &&& s.stored_error is None
    &&& s.reader is None
    &&& s.read_requests@.len() == 0
    &&& s.byte_source == byte
    &&& c.fits(s@)
    &&& match c {
        ReadableStreamController::ReadableStreamDefaultController(d) => {
            &&& !d.close_requested && !d.pull_again && !d.pulling && !d.started && !d.algorithms_cleared
            &&& d.queue@.len() == 0
        },
        ReadableStreamController::ReadableStreamByteController(b) => {
            &&& b.is_fresh()
            &&& b.strategy_hwm == 0
            &&& b.auto_allocate_chunk_size is None
        },
    }
}

/// What ReadableStreamTee with `reader_id` and `clone_for_branch_2` does to
/// the stream `s0`: it becomes `s1` and the tee `r` comes back. A locked
/// stream is refused; otherwise the reader `reader_id` locks it, the shared
/// state is that of a fresh byte tee (byte source) or default tee, and two
/// fresh branches of the source's kind are made.
pub open spec fn tee_outcome(
    s0: ReadableStreamView,
    reader_id: u64,
    clone_for_branch_2: bool,
    s1: ReadableStreamView,
    r: Result<TeeSetUp, StreamError>,
) -> bool {
    &&& s0.reader is Some ==> r == Err::<TeeSetUp, StreamError>(StreamError::ReadableLocked) && s1 == s0
    &&& s0.reader is None ==> (r matches Ok(t) && {
        &&& t.reader.generic == (ReadableStreamGenericReader {
            id: reader_id,
            kind: ReaderKind::DefaultReader,
            closed_promise: initial_closed_promise(s0),
        })
        &&& s1 == locked_by(s0, t.reader.generic)
        &&& s0.byte_source ==> t.state == ReadableStreamTeeState::Byte(fresh_byte_tee())
        &&& !s0.byte_source ==> t.state == ReadableStreamTeeState::Default(fresh_default_tee(clone_for_branch_2))
        &&& fresh_branch(t.branch_1, t.controller_1, s0.byte_source)
        &&& fresh_branch(t.branch_2, t.controller_2, s0.byte_source)
    })
}

/// A branch stream of a tee, of a byte stream when `byte`: CreateReadableStream
/// or CreateReadableByteStream with a high water mark of 0.
fn new_tee_branch(byte: bool) -> (r: (ReadableStream, ReadableStreamController))
    ensures
        fresh_branch(r.0, r.1, byte),
{
    let stream = ReadableStream::new(byte);
    if byte {
        let c = ReadableStreamByteController::new(0, Option::None);
        (stream, ReadableStreamController::ReadableStreamByteController(c))
    } else {
        let c = crate::default_controller::ReadableStreamDefaultController::new();
        (stream, ReadableStreamController::ReadableStreamDefaultController(c))
    }
}

impl ReadableStream {
    /// ReadableStreamTee: the tee locks the stream with a default reader
    /// `reader_id` (refused when the stream is locked), shares the state of a
    /// byte tee for a byte source, else of a default tee, and makes the two
    /// branch streams of the source's kind.
    pub fn readable_stream_tee(
        &mut self,
        reader_id: u64,
        clone_for_branch_2: bool,
    ) -> (r: Result<TeeSetUp, StreamError>)
        requires
            old(self)@.wf(),
        ensures
            final(self)@.wf(),
            tee_outcome(old(self)@, reader_id, clone_for_branch_2, final(self)@, r),
    {
        let reader = match ReadableStreamDefaultReader::new(self, reader_id) {
            Ok(rd) => rd,
            Err(e) => {
                return Err(e);
            },
        };
        let byte = self.byte_source;
        let state = if byte {
            ReadableStreamTeeState::Byte(crate::byte_tee::ReadableByteStreamTee::new())
        } else {
            ReadableStreamTeeState::Default(crate::tee::ReadableStreamDefaultTee::new(clone_for_branch_2))
        };
        let (branch_1, controller_1) = new_tee_branch(byte);
        let (branch_2, controller_2) = new_tee_branch(byte);
        Ok(TeeSetUp { reader, state, branch_1, controller_1, branch_2, controller_2 })
    }

    /// The public `tee()`: ReadableStreamTee without cloning for branch 2.
    pub fn tee(&mut self, reader_id: u64) -> (r: Result<TeeSetUp, StreamError>)
        requires
            old(self)@.wf(),
        ensures
            final(self)@.wf(),
            tee_outcome(old(self)@, reader_id, false, final(self)@, r),
    {
        self.readable_stream_tee(reader_id, false)
    }
}

} // verus!
