//! Plain values that the stream machinery exchanges with its host: handles of
//! script values, the errors the streams raise, and the outside work that a
//! step of a stream asks its host to perform.
use vstd::prelude::*;

verus! {

/// The errors that the stream algorithms raise themselves.
#[derive(Clone, Copy, PartialEq, Eq, Structural, Debug)]
pub enum StreamError {
    /// `cancel()` on a stream that has a reader.
    CancelLockedStream,
    /// The closed promise of a reader that was released.
    ReaderReleasedClosed,
    /// Pending read requests of a reader that was released.
    ReaderReleased,
    /// A byte stream closed or read with a partially filled element.
    InsufficientBytes,
    /// A reader was requested for a stream that already has one.
    ReadableLocked,
    /// A BYOB reader was requested for a stream without a byte source.
    NotByteSource,
    /// `read()` on a released default reader.
    ReadReleasedReader,
    /// `cancel()` on a released reader.
    CancelReleasedReader,
    /// A BYOB read into a view of byte length 0.
    ViewZeroLength,
    /// A BYOB read into a view whose buffer has byte length 0.
    ViewBufferZeroLength,
    /// A BYOB read into a detached buffer.
    ViewDetached,
    /// `min` of a BYOB read is 0.
    MinZero,
    /// `min` of a BYOB read exceeds the length of a typed array view.
    MinExceedsLength,
    /// `min` of a BYOB read exceeds the byte length of a DataView.
    MinExceedsByteLength,
    /// `read()` on a released BYOB reader.
    ReadReleasedByobReader,
    /// `close()` on a byte controller that was already asked to close.
    CloseCalledTwice,
    /// `close()` on a byte controller whose stream is not readable.
    CloseNotReadable,
    /// `enqueue()` of a chunk of byte length 0.
    ChunkZeroLength,
    /// `enqueue()` of a chunk whose buffer has byte length 0.
    ChunkBufferZeroLength,
    /// `enqueue()` on a byte controller that was asked to close.
    EnqueueCloseRequested,
    /// `enqueue()` on a byte controller whose stream is not readable.
    EnqueueNotReadable,
    /// `enqueue()` of a chunk whose buffer is detached.
    ChunkDetached,
    /// `enqueue()` while the buffer of the first pending pull-into is detached.
    PullIntoDetached,
    /// `close()` on a default controller that cannot close.
    DefaultCannotClose,
    /// `enqueue()` on a default controller that cannot enqueue.
    DefaultCannotEnqueue,
    /// A byte stream strategy with a size function.
    ByteStrategyWithSize,
    /// `autoAllocateChunkSize` of 0.
    AutoAllocateZero,
    /// `abort()` on a writable stream that has a writer.
    AbortLockedStream,
    /// `close()` on a writable stream that has a writer.
    CloseLockedStream,
    /// `close()` on a writable stream that is closing already.
    CloseClosingStream,
    /// `close()` on a writable stream that is closed or errored.
    CloseNotWritable,
    /// A writer was requested for a stream that already has one.
    WritableLocked,
    /// `desiredSize` of a released writer.
    DesiredSizeReleasedWriter,
    /// `abort()` of a released writer.
    AbortReleasedWriter,
    /// `close()` of a released writer.
    CloseReleasedWriter,
    /// `write()` of a released writer.
    WriteReleasedWriter,
    /// The promises of a writer that was released.
    WriterReleased,
    /// A write through a writer that no longer belongs to the stream.
    WriteToReleasedWriter,
    /// A write to a stream that is closing or closed.
    WriteClosing,
    /// An underlying sink with a `type`.
    InvalidSinkType,
    /// A strategy whose high water mark is NaN or negative.
    InvalidHighWaterMark,
}

/// Whether an error is raised as a `RangeError` (otherwise it is a `TypeError`).
pub open spec fn is_range_error(e: StreamError) -> bool {
    e == StreamError::MinExceedsLength || e == StreamError::MinExceedsByteLength
        || e == StreamError::ByteStrategyWithSize || e == StreamError::InvalidSinkType
        || e == StreamError::InvalidHighWaterMark
}

impl StreamError {
    /// Returns true when this error is raised as a `RangeError`.
    pub fn range_error(&self) -> (r: bool)
        ensures
            r == is_range_error(*self),
    {
        match self {
            StreamError::MinExceedsLength => true,
            StreamError::MinExceedsByteLength => true,
            StreamError::ByteStrategyWithSize => true,
            StreamError::InvalidSinkType => true,
            StreamError::InvalidHighWaterMark => true,
            _ => false,
        }
    }
}

/// A reason with which a stream, a request or a promise is errored or canceled.
#[derive(Clone, Copy, PartialEq, Eq, Structural, Debug)]
pub enum Reason {
    /// A script value, by its handle.
    Value(u64),
    /// The value `undefined`.
    Undefined,
    /// An error that the stream algorithms raise.
    Error(StreamError),
    /// The array of two cancel reasons of the branches of a tee.
    Pair(u64, u64),
}

/// The kind of a typed array or DataView, which fixes its element size.
#[derive(Clone, Copy, PartialEq, Eq, Structural, Debug)]
pub enum ViewType {
    Uint8Array,
    Int8Array,
    Uint16Array,
    Int16Array,
    Uint32Array,
    Int32Array,
    BigUint64Array,
    BigInt64Array,
    Float32Array,
    Float64Array,
    DataView,
}

/// The element size of each kind of view, from the typed array constructors table.
pub open spec fn spec_element_size(v: ViewType) -> nat {
    match v {
        ViewType::Uint8Array => 1,
        ViewType::Int8Array => 1,
        ViewType::Uint16Array => 2,
        ViewType::Int16Array => 2,
        ViewType::Uint32Array => 4,
        ViewType::Int32Array => 4,
        ViewType::BigUint64Array => 8,
        ViewType::BigInt64Array => 8,
        ViewType::Float32Array => 4,
        ViewType::Float64Array => 8,
        ViewType::DataView => 1,
    }
}

impl ViewType {
    /// The element size in bytes of a view of this kind.
    pub fn element_size(&self) -> (r: usize)
        ensures
            r == spec_element_size(*self),
            1 <= r <= 8,
    {
        match self {
            ViewType::Uint8Array => 1,
            ViewType::Int8Array => 1,
            ViewType::Uint16Array => 2,
            ViewType::Int16Array => 2,
            ViewType::Uint32Array => 4,
            ViewType::Int32Array => 4,
            ViewType::BigUint64Array => 8,
            ViewType::BigInt64Array => 8,
            ViewType::Float32Array => 4,
            ViewType::Float64Array => 8,
            ViewType::DataView => 1,
        }
    }

    /// True for a typed array, false for a DataView.
    pub fn is_typed_array(&self) -> (r: bool)
        ensures
            r == (*self != ViewType::DataView),
    {
        match self {
            ViewType::DataView => false,
            _ => true,
        }
    }
}

/// A chunk handed to a read request: a script value, or a view onto a buffer.
#[derive(Clone, Copy, PartialEq, Eq, Structural, Debug)]
pub enum Chunk {
    /// A script value, by its handle.
    Value(u64),
    /// A view of kind `view` onto `buffer`, starting at `byte_offset`, of `length` elements.
    View { buffer: u64, byte_offset: usize, length: usize, view: ViewType },
}

/// A piece of outside work that a step of a readable stream hands to its host,
/// to be performed in order.
#[derive(Clone, Copy, PartialEq, Eq, Structural, Debug)]
pub enum ReadableEffect {
    /// Resolve the closed promise of reader `reader` with undefined.
    ResolveClosed { reader: u64 },
    /// Reject the pending closed promise of `reader` and mark it handled.
    RejectClosed { reader: u64, reason: Reason },
    /// Replace the closed promise of `reader` by one rejected with `reason`, marked handled.
    ReplaceClosedRejected { reader: u64, reason: Reason },
    /// Perform the chunk steps of a read (or read-into) request.
    ReadChunk { request: u64, chunk: Chunk },
    /// Perform the close steps of a read (or read-into) request, with an optional chunk.
    ReadClose { request: u64, closing_chunk: Option<Chunk> },
    /// Perform the error steps of a read (or read-into) request.
    ReadError { request: u64, reason: Reason },
    /// Perform the controller's pull algorithm and report how its promise settles.
    CallPull,
    /// Work out whether the desired size of the default controller is positive
    /// and let it pull if needed.
    PullIfNeeded,
    /// Perform the controller's cancel algorithm with `reason`.
    CallCancel { reason: Reason },
    /// Drop the controller's pull, cancel and size algorithms.
    ClearAlgorithms,
    /// Detach the BYOB request `request` from its controller.
    InvalidateByobRequest { request: u64 },
    /// Transfer the buffer behind `buffer`; the handle names the new buffer afterwards.
    TransferBuffer { buffer: u64 },
    /// Copy `count` bytes from `from` at `from_index` into `to` at `to_index`.
    CopyBytes { to: u64, to_index: usize, from: u64, from_index: usize, count: usize },
    /// Clone the buffer behind `from` into a new buffer named by `into`.
    CloneBuffer { from: u64, into: u64 },
    /// The queue of a default controller was emptied.
    QueueReset,
    /// The chunk `value` of size `size` left the queue of a default controller.
    Dequeued { value: u64, size: u64 },
}

} // verus!
