//! Properties that hold across the operations of the streams.
use vstd::prelude::*;
use crate::effect::{Chunk, Reason, ReadableEffect, spec_element_size};
use crate::byte_queue::{
    PullIntoDescriptor, ReadableByteStreamQueueEntry, consume_queue, copy_effects, copied_bytes, fill_amount,
    filled_by, queue_bytes, queue_wf, lemma_consume_queue, lemma_queue_bytes_push, lemma_queue_bytes_nonempty, lemma_copy_effects_count, lemma_fill_not_ready,
};
use crate::readable::{ReadableStreamView, ReadableStreamState, ReaderKind};
use crate::byte_controller::{ArrayBufferView, ReadableStreamByteController, ReadServing, chunk_u8_view, entry_read};
use crate::reader::unlocked;
use crate::default_controller::ReadableStreamDefaultController;
use crate::tee::{
    ReadableStreamDefaultTee, TeeBranch, TeeEffect, after_cancel_1, after_cancel_2, cancel_1_effects,
    cancel_2_effects, enqueue_effects,
};
use crate::byte_queue::spec_filled_view;
use crate::writable::{WritableEffect, WritableStreamView};

verus! {

/// Filling a pending descriptor from a queue moves bytes without losing or
/// inventing any: the queue loses exactly the bytes the descriptor gains, and
/// the copies handed to the host move exactly that many bytes.
pub proof fn lemma_fill_conserves_bytes(q: Seq<ReadableByteStreamQueueEntry>, d: PullIntoDescriptor)
    requires
        queue_wf(q),
        d.pending_wf(),
    ensures
        ({
            let n = fill_amount(queue_bytes(q), d).0;
            &&& n <= queue_bytes(q)
            &&& queue_bytes(consume_queue(q, n)) + n == queue_bytes(q)
            &&& filled_by(d, n).bytes_filled == d.bytes_filled + n
            &&& filled_by(d, n).bytes_filled <= d.byte_length
            &&& copied_bytes(copy_effects(q, n, d.buffer, (d.byte_offset + d.bytes_filled) as nat)) == n
        }),
{
    let n = fill_amount(queue_bytes(q), d).0;
    let es = d.element_size as int;
    assert(es > 0);
    let room = d.byte_length - d.bytes_filled;
    let max_copy: nat = if queue_bytes(q) <= room { queue_bytes(q) } else { room as nat };
    let mbf = d.bytes_filled + max_copy;
    assert(mbf % es <= mbf) by (nonlinear_arith)
        requires
            es > 0,
            mbf >= 0,
    ;
    lemma_consume_queue(q, n);
    lemma_copy_effects_count(q, n, d.buffer, (d.byte_offset + d.bytes_filled) as nat);
}

/// A descriptor is only handed to its reader holding a whole number of
/// elements, at least its minimum fill, and never more than its byte length.
pub proof fn lemma_ready_fill_is_aligned(total: nat, d: PullIntoDescriptor)
    requires
        d.pending_wf(),
        fill_amount(total, d).1,
    ensures
        ({
            let f = filled_by(d, fill_amount(total, d).0);
            &&& f.bytes_filled % d.element_size == 0
            &&& f.bytes_filled >= d.minimum_fill
            &&& f.bytes_filled <= d.byte_length
        }),
{
    let es = d.element_size as nat;
    assert(es > 0);
    let max_copy: nat = if total <= d.byte_length - d.bytes_filled {
        total
    } else {
        (d.byte_length - d.bytes_filled) as nat
    };
    let mbf: nat = d.bytes_filled as nat + max_copy;
    assert(mbf % es <= mbf) by (nonlinear_arith)
        requires
            es > 0,
    ;
    let aligned: nat = (mbf - mbf % es) as nat;
    assert(aligned % es == 0 && aligned <= mbf) by (nonlinear_arith)
        requires
            es > 0,
            aligned == mbf - mbf % es,
    {
        assert(mbf == (mbf / es) * es + mbf % es);
        assert(aligned == (mbf / es) * es);
        assert(((mbf / es) * es) % es == 0) by {
            vstd::arithmetic::div_mod::lemma_mod_multiples_basic((mbf / es) as int, es as int);
        }
    }
    assert(mbf <= d.byte_length);
    assert(aligned >= d.minimum_fill);
    assert(fill_amount(total, d).0 == aligned - d.bytes_filled);
    let f = filled_by(d, fill_amount(total, d).0);
    assert(f.bytes_filled == aligned);
}

/// A descriptor that is not ready after a fill took every queued byte and
/// still waits below its minimum fill.
pub proof fn lemma_unready_fill_drains_queue(q: Seq<ReadableByteStreamQueueEntry>, d: PullIntoDescriptor)
    requires
        queue_wf(q),
        d.pending_wf(),
        !fill_amount(queue_bytes(q), d).1,
    ensures
        queue_bytes(consume_queue(q, fill_amount(queue_bytes(q), d).0)) == 0,
        filled_by(d, fill_amount(queue_bytes(q), d).0).pending_wf(),
{
    lemma_fill_not_ready(queue_bytes(q), d);
    lemma_consume_queue(q, queue_bytes(q));
}

/// Closing a stream answers every pending read of a default reader exactly
/// once, oldest first, after resolving the reader's closed promise.
pub proof fn lemma_close_answers_every_read(s: ReadableStreamView)
    requires
        s.has_default_reader(),
    ensures
        s.close_effects().len() == s.read_requests.len() + 1,
        s.close_effects()[0] == (ReadableEffect::ResolveClosed { reader: s.reader->Some_0.id }),
        forall|i: int|
            0 <= i < s.read_requests.len() ==> s.close_effects()[i + 1] == (ReadableEffect::ReadClose {
                request: s.read_requests[i],
                closing_chunk: None,
            }),
        s.closed().read_requests.len() == 0,
        s.closed().state == ReadableStreamState::Closed,
{
}

/// Erroring a stream answers every pending request of its reader exactly
/// once with the error, oldest first, after rejecting the closed promise.
pub proof fn lemma_error_answers_every_read(s: ReadableStreamView, e: Reason)
    requires
        s.reader is Some,
    ensures
        s.error_effects(e).len() == s.read_requests.len() + 1,
        forall|i: int|
            0 <= i < s.read_requests.len() ==> s.error_effects(e)[i + 1] == (ReadableEffect::ReadError {
                request: s.read_requests[i],
                reason: e,
            }),
        s.errored(e).read_requests.len() == 0,
        s.errored(e).stored_error == Some(e),
{
}

/// Releasing a reader leaves the stream without reader and without pending
/// requests, in the state it was in, so a new reader can lock it.
pub proof fn lemma_release_unlocks(s: ReadableStreamView)
    requires
        s.wf(),
    ensures
        unlocked(s).reader is None,
        unlocked(s).read_requests.len() == 0,
        unlocked(s).state == s.state,
        unlocked(s).wf(),
{
}

/// The source of a tee is canceled once, when both branches are canceled,
/// with both reasons in branch order, whichever branch is canceled first.
pub proof fn lemma_tee_cancel_order(t: ReadableStreamDefaultTee, a: u64, b: u64)
    requires
        t.reason_1 is None,
        t.reason_2 is None,
    ensures
        cancel_1_effects(t, a) + cancel_2_effects(after_cancel_1(t, a), b) == seq![
            TeeEffect::CancelSource { reason: Reason::Pair(a, b) },
        ],
        cancel_2_effects(t, b) + cancel_1_effects(after_cancel_2(t, b), a) == seq![
            TeeEffect::CancelSource { reason: Reason::Pair(a, b) },
        ],
        after_cancel_2(after_cancel_1(t, a), b) == after_cancel_1(after_cancel_2(t, b), a),
{
    assert(cancel_1_effects(t, a) + cancel_2_effects(after_cancel_1(t, a), b) =~= seq![
        TeeEffect::CancelSource { reason: Reason::Pair(a, b) },
    ]);
    assert(cancel_2_effects(t, b) + cancel_1_effects(after_cancel_2(t, b), a) =~= seq![
        TeeEffect::CancelSource { reason: Reason::Pair(a, b) },
    ]);
}

/// Canceling one branch of a tee alone never cancels the source.
pub proof fn lemma_tee_single_cancel_keeps_source(t: ReadableStreamDefaultTee, a: u64)
    requires
        t.reason_1 is None,
        t.reason_2 is None,
    ensures
        cancel_1_effects(t, a).len() == 0,
        cancel_2_effects(t, a).len() == 0,
{
}

/// The chunk steps among a list of steps, in order.
pub open spec fn chunk_reads(effects: Seq<ReadableEffect>) -> Seq<ReadableEffect>
    decreases effects.len(),
{
    if effects.len() == 0 {
        seq![]
    } else if effects.last() is ReadChunk {
        chunk_reads(effects.drop_last()).push(effects.last())
    } else {
        chunk_reads(effects.drop_last())
    }
}

/// The chunk steps of two lists of steps one after the other are those of
/// the first, then those of the second.
pub proof fn lemma_chunk_reads_add(a: Seq<ReadableEffect>, b: Seq<ReadableEffect>)
    ensures
        chunk_reads(a + b) == chunk_reads(a) + chunk_reads(b),
    decreases b.len(),
{
    if b.len() == 0 {
        assert(a + b =~= a);
        assert(chunk_reads(b) =~= seq![]);
        assert(chunk_reads(a) + chunk_reads(b) =~= chunk_reads(a));
    } else {
        lemma_chunk_reads_add(a, b.drop_last());
        assert((a + b).drop_last() =~= a + b.drop_last());
        assert((a + b).last() == b.last());
        if b.last() is ReadChunk {
            assert(chunk_reads(a) + chunk_reads(b) =~= (chunk_reads(a) + chunk_reads(b.drop_last())).push(b.last()));
        }
    }
}

/// The chunk steps that hand the first `k` queued chunks to the first `k`
/// waiting requests, pairwise and in order.
pub open spec fn reads_in_order(requests: Seq<u64>, queue: Seq<ReadableByteStreamQueueEntry>, k: nat) -> Seq<ReadableEffect> {
    Seq::new(k, |i: int| entry_read(requests[i], queue[i]))
}

/// Serving the waiting reads of a default reader from a byte queue, without a
/// requested close, hands the oldest queued chunks, one each and whole, to
/// the oldest requests, in order: as many as the fewer of the two, which leave
/// the queue and the requests, and the queue loses exactly their bytes.
pub proof fn lemma_serve_reads_in_order(c: ReadableStreamByteController, s: ReadableStreamView, st: ReadServing)
    requires
        !c.close_requested,
        !st.closed,
        queue_wf(st.queue),
        st.total == queue_bytes(st.queue),
    ensures
        ({
            let r = c.serve_reads(s, st);
            let k: nat = if st.requests.len() < st.queue.len() { st.requests.len() } else { st.queue.len() };
            &&& r.queue == st.queue.skip(k as int)
            &&& r.requests == st.requests.skip(k as int)
            &&& r.total == queue_bytes(r.queue)
            &&& !r.closed
            &&& chunk_reads(r.effects) == chunk_reads(st.effects) + reads_in_order(st.requests, st.queue, k)
        }),
    decreases st.requests.len(),
{
    let k: nat = if st.requests.len() < st.queue.len() { st.requests.len() } else { st.queue.len() };
    if st.queue.len() > 0 {
        assert(st.queue[0].wf());
    }
    if st.requests.len() == 0 || st.total <= 0 || st.queue.len() == 0 {
        assert(k == 0);
        assert(st.queue.skip(0) =~= st.queue);
        assert(st.requests.skip(0) =~= st.requests);
        assert(reads_in_order(st.requests, st.queue, 0) =~= seq![]);
        assert(chunk_reads(st.effects) + seq![] =~= chunk_reads(st.effects));
    } else {
        let entry = st.queue[0];
        let rest = st.requests.drop_first();
        let total = st.total - entry.byte_length;
        let read = entry_read(st.requests[0], entry);
        let should = c.should_pull_at(s.with_requests(rest), total);
        let pull = if should && !st.pulling {
            seq![ReadableEffect::CallPull]
        } else {
            seq![]
        };
        let next = ReadServing {
            queue: st.queue.drop_first(),
            total,
            requests: rest,
            pulling: st.pulling || should,
            pull_again: st.pull_again || (should && st.pulling),
            closed: false,
            effects: st.effects + pull + seq![read],
        };
        assert(queue_wf(next.queue)) by {
            assert forall|i: int| 0 <= i < next.queue.len() implies (#[trigger] next.queue[i]).wf() by {
                assert(next.queue[i] == st.queue[i + 1]);
            }
        }
        lemma_serve_reads_in_order(c, s, next);
        assert(st.queue.skip(k as int) =~= next.queue.skip(k - 1));
        assert(st.requests.skip(k as int) =~= next.requests.skip(k - 1));
        lemma_chunk_reads_add(st.effects + pull, seq![read]);
        lemma_chunk_reads_add(st.effects, pull);
        assert(chunk_reads(pull) =~= seq![]) by {
            reveal_with_fuel(chunk_reads, 2);
            if should && !st.pulling {
                assert(pull.drop_last() =~= Seq::<ReadableEffect>::empty());
                assert(pull.last() == ReadableEffect::CallPull);
            } else {
                assert(pull =~= Seq::<ReadableEffect>::empty());
            }
        }
        assert(chunk_reads(seq![read]) =~= seq![read]) by {
            reveal_with_fuel(chunk_reads, 2);
            assert(seq![read].drop_last() =~= Seq::<ReadableEffect>::empty());
            assert(seq![read].last() == read);
        }
        assert(reads_in_order(st.requests, st.queue, k) =~= seq![read] + reads_in_order(next.requests, next.queue, (k - 1) as nat));
        assert(chunk_reads(st.effects) + seq![] =~= chunk_reads(st.effects));
        assert(chunk_reads(next.effects) + reads_in_order(next.requests, next.queue, (k - 1) as nat) =~= chunk_reads(st.effects) + reads_in_order(st.requests, st.queue, k));
    }
}

/// A chunk enqueued on a byte stream while its default reader waits and
/// nothing is queued or pending goes whole, and at once, to the oldest
/// waiting read: that request leaves, the queue stays empty, and no other
/// read is answered.
pub proof fn lemma_enqueue_answers_waiting_read(
    c: ReadableStreamByteController,
    s: ReadableStreamView,
    chunk: ArrayBufferView,
    clone_into: u64,
    e0: Seq<ReadableEffect>,
)
    requires
        c.wf(),
        !c.close_requested,
        s.state == ReadableStreamState::Readable,
        s.has_default_reader(),
        s.read_requests.len() > 0,
        c.queue@.len() == 0,
        c.pending_pull_intos@.len() == 0,
    ensures
        ({
            let r = c.spec_enqueue(s, chunk, clone_into, e0);
            &&& r.queue.len() == 0
            &&& r.total == 0
            &&& r.stream == s.with_requests(s.read_requests.drop_first())
            &&& chunk_reads(r.effects) == chunk_reads(e0) + seq![
                ReadableEffect::ReadChunk { request: s.read_requests[0], chunk: chunk_u8_view(chunk) },
            ]
        }),
{
    let e1 = e0.push(ReadableEffect::TransferBuffer { buffer: chunk.buffer });
    let st = c.byte_state(s, e1);
    assert(queue_bytes(c.queue@) == 0);
    assert(s.with_requests(s.read_requests) =~= s);
    let read = ReadableEffect::ReadChunk { request: s.read_requests[0], chunk: chunk_u8_view(chunk) };
    let routed = c.enqueue_route(st, chunk);
    assert(routed.effects == e1.push(read));
    let r = c.enqueue_finish(routed);
    let pull = if c.should_pull_at(routed.stream, routed.total) && !routed.pulling {
        seq![ReadableEffect::CallPull]
    } else {
        seq![]
    };
    assert(r.effects == e1.push(read) + pull);
    lemma_chunk_reads_add(e1.push(read), pull);
    lemma_chunk_reads_add(e0, seq![ReadableEffect::TransferBuffer { buffer: chunk.buffer }, read]);
    assert(e1.push(read) =~= e0 + seq![ReadableEffect::TransferBuffer { buffer: chunk.buffer }, read]);
    assert(chunk_reads(pull) =~= seq![]) by {
        reveal_with_fuel(chunk_reads, 2);
        if pull.len() > 0 {
            assert(pull.drop_last() =~= Seq::<ReadableEffect>::empty());
        } else {
            assert(pull =~= Seq::<ReadableEffect>::empty());
        }
    }
    assert(chunk_reads(seq![ReadableEffect::TransferBuffer { buffer: chunk.buffer }, read]) =~= seq![read]) by {
        reveal_with_fuel(chunk_reads, 3);
        assert(seq![ReadableEffect::TransferBuffer { buffer: chunk.buffer }, read].drop_last() =~= seq![
            ReadableEffect::TransferBuffer { buffer: chunk.buffer },
        ]);
        assert(seq![ReadableEffect::TransferBuffer { buffer: chunk.buffer }].drop_last() =~= Seq::<ReadableEffect>::empty());
    }
    assert(chunk_reads(r.effects) =~= chunk_reads(e0) + seq![read]);
}

/// A byte controller never starts a pull while one runs, and a pull it
/// starts leaves it pulling: the pulls of a source never overlap, and a pull
/// asked for meanwhile is remembered for when the running one settles.
pub proof fn lemma_pulls_never_overlap(
    c: ReadableStreamByteController,
    after: ReadableStreamByteController,
    should: bool,
)
    requires
        c.flags_after_pull(after, should),
    ensures
        c.pulling ==> c.pull_effects(should).len() == 0,
        c.pulling && should ==> after.pull_again,
        c.pull_effects(should).len() > 0 ==> after.pulling,
{
}

/// The read a default controller's pull steps answer last: the oldest queued
/// value goes to the request, and the values behind it stay in order.
proof fn lemma_default_read_takes_head(
    c: ReadableStreamDefaultController,
    s0: ReadableStreamView,
    e0: Seq<ReadableEffect>,
    request: u64,
    c1: ReadableStreamDefaultController,
    s1: ReadableStreamView,
    e1: Seq<ReadableEffect>,
)
    requires
        c.queue@.len() > 0,
        c.pull_steps_outcome(s0, e0, request, c1, s1, e1),
    ensures
        e1.len() > 0,
        e1.last() == (ReadableEffect::ReadChunk { request, chunk: Chunk::Value(c.queue@[0].value) }),
        c1.queue@ == c.queue@.drop_first(),
{
    let head = c.queue@[0];
    let read = ReadableEffect::ReadChunk { request, chunk: Chunk::Value(head.value) };
    if c.close_requested && c.queue@.len() == 1 {
        let pre = e0 + seq![
            ReadableEffect::Dequeued { value: head.value, size: head.size },
            ReadableEffect::ClearAlgorithms,
        ] + s0.close_effects();
        assert(e1 == pre + seq![read]);
        assert((pre + seq![read]).last() == read);
    } else {
        let pre = e0 + seq![
            ReadableEffect::Dequeued { value: head.value, size: head.size },
            ReadableEffect::PullIfNeeded,
        ];
        assert(e1 =~= pre + seq![read]);
        assert((pre + seq![read]).last() == read);
    }
}

/// After `i` consecutive reads of a default controller, each with a value
/// queued, the queue holds what followed the first `i` values.
proof fn lemma_default_reads_consume_queue(
    cs: Seq<ReadableStreamDefaultController>,
    ss: Seq<ReadableStreamView>,
    es: Seq<Seq<ReadableEffect>>,
    requests: Seq<u64>,
    i: int,
)
    requires
        requests.len() <= cs[0].queue@.len(),
        cs.len() == requests.len() + 1,
        ss.len() == requests.len() + 1,
        es.len() == requests.len() + 1,
        forall|k: int| 0 <= k < requests.len() ==> (#[trigger] cs[k]).pull_steps_outcome(
            ss[k],
            es[k],
            requests[k],
            cs[k + 1],
            ss[k + 1],
            es[k + 1],
        ),
        0 <= i <= requests.len(),
    ensures
        cs[i].queue@ == cs[0].queue@.skip(i),
    decreases i,
{
    if i > 0 {
        lemma_default_reads_consume_queue(cs, ss, es, requests, i - 1);
        assert(cs[i - 1].queue@.len() > 0);
        lemma_default_read_takes_head(cs[i - 1], ss[i - 1], es[i - 1], requests[i - 1], cs[i], ss[i], es[i]);
        assert(cs[0].queue@.skip(i - 1).drop_first() =~= cs[0].queue@.skip(i));
    } else {
        assert(cs[0].queue@.skip(0) =~= cs[0].queue@);
    }
}

/// A default stream hands its queued values out in the order they were
/// queued: consecutive reads, while values are queued, answer each request
/// with the next value, oldest first, and leave the rest queued in order.
pub proof fn lemma_default_reads_in_queue_order(
    cs: Seq<ReadableStreamDefaultController>,
    ss: Seq<ReadableStreamView>,
    es: Seq<Seq<ReadableEffect>>,
    requests: Seq<u64>,
)
    requires
        requests.len() <= cs[0].queue@.len(),
        cs.len() == requests.len() + 1,
        ss.len() == requests.len() + 1,
        es.len() == requests.len() + 1,
        forall|k: int| 0 <= k < requests.len() ==> (#[trigger] cs[k]).pull_steps_outcome(
            ss[k],
            es[k],
            requests[k],
            cs[k + 1],
            ss[k + 1],
            es[k + 1],
        ),
    ensures
        forall|k: int| 0 <= k < requests.len() ==> (#[trigger] es[k + 1]).last() == (ReadableEffect::ReadChunk {
            request: requests[k],
            chunk: Chunk::Value(cs[0].queue@[k].value),
        }),
        cs[requests.len() as int].queue@ == cs[0].queue@.skip(requests.len() as int),
{
    assert forall|k: int| 0 <= k < requests.len() implies (#[trigger] es[k + 1]).last() == (ReadableEffect::ReadChunk {
        request: requests[k],
        chunk: Chunk::Value(cs[0].queue@[k].value),
    }) by {
        lemma_default_reads_consume_queue(cs, ss, es, requests, k);
        assert(cs[k].queue@.len() > 0);
        lemma_default_read_takes_head(cs[k], ss[k], es[k], requests[k], cs[k + 1], ss[k + 1], es[k + 1]);
    }
    lemma_default_reads_consume_queue(cs, ss, es, requests, requests.len() as int);
}

/// Enqueueing a chunk keeps the queue total equal to the bytes queued: when
/// the total counts the bytes of the queue, the total grown by the chunk's
/// byte length counts the bytes of the queue with the chunk at its back,
/// whatever the chunk and the queue.
pub proof fn lemma_enqueue_keeps_total(
    q: Seq<ReadableByteStreamQueueEntry>,
    total: nat,
    buffer: u64,
    byte_offset: usize,
    byte_length: usize,
)
    requires
        total == queue_bytes(q),
    ensures
        total + byte_length == queue_bytes(q.push(ReadableByteStreamQueueEntry { buffer, byte_offset, byte_length })),
{
    lemma_queue_bytes_push(q, ReadableByteStreamQueueEntry { buffer, byte_offset, byte_length });
}

/// The view a BYOB read receives covers exactly the bytes written for it: a
/// descriptor that a fill makes ready becomes a view over its own buffer and
/// view type, starting at the descriptor's byte offset (where the reader's
/// view starts), ending where the last copied byte went, and the first copy
/// of the fill writes right behind the bytes filled before.
pub proof fn lemma_filled_view_covers_copies(q: Seq<ReadableByteStreamQueueEntry>, d: PullIntoDescriptor)
    requires
        queue_wf(q),
        d.pending_wf(),
        fill_amount(queue_bytes(q), d).1,
    ensures
        ({
            let n = fill_amount(queue_bytes(q), d).0;
            let copies = copy_effects(q, n, d.buffer, (d.byte_offset + d.bytes_filled) as nat);
            &&& n > 0
            &&& copies.len() > 0
            &&& copies[0] matches ReadableEffect::CopyBytes { to, to_index, .. } && to == d.buffer
                && to_index == d.byte_offset + d.bytes_filled
            &&& spec_filled_view(filled_by(d, n)) matches Chunk::View { buffer, byte_offset, length, view } && {
                &&& buffer == d.buffer
                &&& view == d.view_type
                &&& byte_offset == d.byte_offset
                &&& byte_offset + length * spec_element_size(view) == d.byte_offset + d.bytes_filled + n
            }
        }),
{
    let total = queue_bytes(q);
    let n = fill_amount(total, d).0;
    lemma_ready_fill_is_aligned(total, d);
    let f = filled_by(d, n);
    assert(n > 0);
    lemma_fill_conserves_bytes(q, d);
    assert(total > 0);
    lemma_queue_bytes_nonempty(q);
    let start = (d.byte_offset + d.bytes_filled) as nat;
    let copies = copy_effects(q, n, d.buffer, start);
    assert(copies.len() > 0);
    let es = d.element_size as nat;
    let bf = f.bytes_filled as nat;
    assert(es > 0);
    assert((bf / es) * es == bf) by (nonlinear_arith)
        requires
            es > 0,
            bf % es == 0,
    {
        vstd::arithmetic::div_mod::lemma_fundamental_div_mod(bf as int, es as int);
    }
    assert(bf / es <= bf) by (nonlinear_arith)
        requires
            es > 0,
    ;
    assert(((bf / es) as usize) as nat == bf / es);
}

/// A byte stream pulls for a waiting reader whatever its queue: a readable,
/// started byte controller without a requested close whose stream has a
/// reader (default or BYOB) with a pending request should call pull, at any
/// high water mark and queue total. Without a waiting request it pulls exactly
/// when the queue is below the high water mark.
pub proof fn lemma_byte_pull_for_waiting_reader(c: ReadableStreamByteController, s: ReadableStreamView)
    ensures
        s.state == ReadableStreamState::Readable && !c.close_requested && c.started && s.reader is Some
            && s.read_requests.len() > 0 ==> c.spec_should_call_pull(s),
        s.state == ReadableStreamState::Readable && !c.close_requested && c.started && s.has_byob_reader()
            && s.read_requests.len() > 0 ==> c.spec_should_call_pull(s),
        !(s.reader is Some && s.read_requests.len() > 0) ==> (c.spec_should_call_pull(s) <==> (s.state
            == ReadableStreamState::Readable && !c.close_requested && c.started && c.strategy_hwm
            > c.queue_total_size)),
        s.state != ReadableStreamState::Readable || c.close_requested || !c.started ==> !c.spec_should_call_pull(s),
{
}

/// A default stream pulls for a waiting reader whatever its desired size: a
/// readable, started default controller without a requested close whose
/// stream is locked by a reader with a pending read should call pull even
/// when the desired size is not positive. Without a waiting read it pulls
/// exactly when the desired size is positive.
pub proof fn lemma_default_pull_for_waiting_reader(
    c: ReadableStreamDefaultController,
    s: ReadableStreamView,
    desired_size_positive: bool,
)
    ensures
        s.state == ReadableStreamState::Readable && !c.close_requested && c.started && s.reader is Some
            && s.read_requests.len() > 0 ==> c.spec_should_call_pull(s, desired_size_positive),
        !(s.reader is Some && s.read_requests.len() > 0) ==> (c.spec_should_call_pull(s, desired_size_positive)
            <==> (s.state == ReadableStreamState::Readable && !c.close_requested && c.started && desired_size_positive)),
        s.state != ReadableStreamState::Readable || c.close_requested || !c.started ==> !c.spec_should_call_pull(
            s,
            desired_size_positive,
        ),
{
}

/// The chunk a default tee reads reaches every branch not canceled, once,
/// whatever the other branch's state: branch 1 gets the chunk and branch 2
/// its chunk (the clone when one was asked for) exactly when the branch is
/// not canceled, and a canceled branch gets nothing.
pub proof fn lemma_tee_chunk_reaches_open_branches(t: ReadableStreamDefaultTee, chunk_1: u64, chunk_2: u64)
    ensures
        ({
            let es = enqueue_effects(t, chunk_1, chunk_2);
            &&& t.reason_1 is None ==> es.contains(TeeEffect::Enqueue { branch: TeeBranch::Branch1, chunk: chunk_1 })
            &&& t.reason_2 is None ==> es.contains(TeeEffect::Enqueue { branch: TeeBranch::Branch2, chunk: chunk_2 })
            &&& es.len() == (if t.reason_1 is None { 1int } else { 0 }) + (if t.reason_2 is None { 1int } else { 0 })
            &&& forall|i: int| 0 <= i < es.len() ==> (#[trigger] es[i] matches TeeEffect::Enqueue { branch, chunk }
                && (branch == TeeBranch::Branch1 ==> t.reason_1 is None && chunk == chunk_1)
                && (branch == TeeBranch::Branch2 ==> t.reason_2 is None && chunk == chunk_2))
        }),
{
    let es = enqueue_effects(t, chunk_1, chunk_2);
    let e1 = TeeEffect::Enqueue { branch: TeeBranch::Branch1, chunk: chunk_1 };
    let e2 = TeeEffect::Enqueue { branch: TeeBranch::Branch2, chunk: chunk_2 };
    if t.reason_1 is None {
        assert(es[0] == e1);
    }
    if t.reason_2 is None {
        if t.reason_1 is None {
            assert(es[1] == e2);
        } else {
            assert(es[0] == e2);
        }
    }
}

/// Finishing erroring answers every pending write once, in order: after the
/// controller's error steps, each write request of the stream is rejected
/// with the stored error, oldest first, and none is left waiting.
pub proof fn lemma_finish_erroring_rejects_every_write(s: WritableStreamView)
    requires
        s.stored_error is Some,
    ensures
        ({
            let es = s.finish_erroring_effects();
            &&& es.len() >= s.write_requests.len() + 1
            &&& es[0] == WritableEffect::ControllerErrorSteps
            &&& forall|k: int| 0 <= k < s.write_requests.len() ==> #[trigger] es[k + 1] == (WritableEffect::RejectPromise {
                promise: s.write_requests[k],
                reason: s.stored_error->Some_0,
            })
            &&& s.finished_erroring().write_requests.len() == 0
        }),
{
    let e = s.stored_error->Some_0;
    let head = seq![WritableEffect::ControllerErrorSteps] + crate::writable::reject_write_effects(s.write_requests, e);
    let es = s.finish_erroring_effects();
    assert(es.subrange(0, head.len() as int) =~= head);
    assert forall|k: int| 0 <= k < s.write_requests.len() implies #[trigger] es[k + 1] == (WritableEffect::RejectPromise {
        promise: s.write_requests[k],
        reason: e,
    }) by {
        assert(es[k + 1] == es.subrange(0, head.len() as int)[k + 1]);
    }
}

} // verus!
