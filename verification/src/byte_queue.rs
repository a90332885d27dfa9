//! The queue of a readable byte stream and its pull-into descriptors: how bytes
//! move from queued chunks into the buffer of a pending read.
use vstd::prelude::*;
use crate::effect::{ReadableEffect, ViewType, spec_element_size};

verus! {

/// A chunk waiting in the queue of a byte stream: `byte_length` bytes of
/// `buffer`, starting at `byte_offset`.
#[derive(Clone, Copy, PartialEq, Eq, Structural, Debug)]
pub struct ReadableByteStreamQueueEntry {
    pub buffer: u64,
    pub byte_offset: usize,
    pub byte_length: usize,
}

impl ReadableByteStreamQueueEntry {
    /// A queued chunk is never empty and its end fits the address space.
    pub open spec fn wf(self) -> bool {
        &&& self.byte_length > 0
        &&& self.byte_offset + self.byte_length <= usize::MAX
    }
}

/// Who waits for a pull-into descriptor.
#[derive(Clone, Copy, PartialEq, Eq, Structural, Debug)]
pub enum PullIntoDescriptorReaderType {
    Default,
    Byob,
    NoReader,
}

/// A pending read into a buffer of a byte stream.
#[derive(Clone, Copy, PartialEq, Eq, Structural, Debug)]
pub struct PullIntoDescriptor {
    pub buffer: u64,
    pub buffer_byte_length: usize,
    pub byte_offset: usize,
    pub byte_length: usize,
    pub bytes_filled: usize,
    pub minimum_fill: usize,
    pub element_size: usize,
    pub view_type: ViewType,
    pub reader_type: PullIntoDescriptorReaderType,
}

impl PullIntoDescriptor {
    /// The shape every descriptor keeps: the filled part lies inside the
    /// described region and the minimum fill is a whole number of elements.
    pub open spec fn wf(self) -> bool {
        &&& self.element_size == spec_element_size(self.view_type)
        &&& self.bytes_filled <= self.byte_length
        &&& self.minimum_fill <= self.byte_length
        &&& self.minimum_fill % self.element_size == 0
        &&& self.byte_length % self.element_size == 0
        &&& self.byte_offset + self.byte_length <= usize::MAX
    }

    /// A descriptor that still waits for bytes has not reached its minimum fill.
    pub open spec fn pending_wf(self) -> bool {
        &&& self.wf()
        &&& self.bytes_filled < self.minimum_fill
    }
}

/// The number of bytes held by a queue.
pub open spec fn queue_bytes(q: Seq<ReadableByteStreamQueueEntry>) -> nat
    decreases q.len(),
{
    if q.len() == 0 {
        0
    } else {
        q[0].byte_length as nat + queue_bytes(q.drop_first())
    }
}

/// Every entry of a queue is well formed.
pub open spec fn queue_wf(q: Seq<ReadableByteStreamQueueEntry>) -> bool {
    forall|i: int| 0 <= i < q.len() ==> (#[trigger] q[i]).wf()
}

/// The first entry of a queue after its first `n` bytes were taken from it.
pub open spec fn advance_entry(e: ReadableByteStreamQueueEntry, n: nat) -> ReadableByteStreamQueueEntry {
    ReadableByteStreamQueueEntry {
        buffer: e.buffer,
        byte_offset: (e.byte_offset + n) as usize,
        byte_length: (e.byte_length - n) as usize,
    }
}

/// The queue after its first `n` bytes were taken: entries that are used up
/// leave the queue, and a partly used entry keeps its remaining bytes.
pub open spec fn consume_queue(q: Seq<ReadableByteStreamQueueEntry>, n: nat) -> Seq<ReadableByteStreamQueueEntry>
    decreases q.len(),
{
    if n == 0 || q.len() == 0 {
        q
    } else if q[0].byte_length <= n {
        consume_queue(q.drop_first(), (n - q[0].byte_length) as nat)
    } else {
        q.update(0, advance_entry(q[0], n))
    }
}

/// The copies that take the first `n` bytes of a queue into `dest`, starting at
/// `dest_start`: one copy per entry touched, in queue order.
pub open spec fn copy_effects(
    q: Seq<ReadableByteStreamQueueEntry>,
    n: nat,
    dest: u64,
    dest_start: nat,
) -> Seq<ReadableEffect>
    decreases q.len(),
{
    if n == 0 || q.len() == 0 {
        seq![]
    } else {
        let c: nat = if q[0].byte_length <= n { q[0].byte_length as nat } else { n };
        seq![ReadableEffect::CopyBytes {
            to: dest,
            to_index: dest_start as usize,
            from: q[0].buffer,
            from_index: q[0].byte_offset,
            count: c as usize,
        }] + copy_effects(q.drop_first(), (n - c) as nat, dest, dest_start + c)
    }
}

/// How many bytes a descriptor takes from a queue holding `total` bytes, and
/// whether it is then ready to be handed to its reader.
pub open spec fn fill_amount(total: nat, d: PullIntoDescriptor) -> (nat, bool) {
    let max_bytes_to_copy: nat = if total <= d.byte_length - d.bytes_filled {
        total
    } else {
        (d.byte_length - d.bytes_filled) as nat
    };
    let max_bytes_filled: nat = d.bytes_filled as nat + max_bytes_to_copy;
    let max_aligned_bytes: nat = (max_bytes_filled - max_bytes_filled % (d.element_size as nat)) as nat;
    if max_aligned_bytes >= d.minimum_fill {
        ((max_aligned_bytes - d.bytes_filled) as nat, true)
    } else {
        (max_bytes_to_copy, false)
    }
}

/// A descriptor after `n` more bytes were written into it.
pub open spec fn filled_by(d: PullIntoDescriptor, n: nat) -> PullIntoDescriptor {
    PullIntoDescriptor { bytes_filled: (d.bytes_filled + n) as usize, ..d }
}

/// The bytes of a queue are the bytes of its first entry and of the rest.
pub proof fn lemma_queue_bytes_update_first(q: Seq<ReadableByteStreamQueueEntry>, e: ReadableByteStreamQueueEntry)
    requires
        q.len() > 0,
    ensures
        queue_bytes(q.update(0, e)) == e.byte_length + queue_bytes(q.drop_first()),
{
    assert(q.update(0, e).drop_first() =~= q.drop_first());
}

/// Appending an entry adds its bytes to those of the queue.
pub proof fn lemma_queue_bytes_push(q: Seq<ReadableByteStreamQueueEntry>, e: ReadableByteStreamQueueEntry)
    ensures
        queue_bytes(q.push(e)) == queue_bytes(q) + e.byte_length,
    decreases q.len(),
{
    if q.len() == 0 {
        assert(q.push(e).drop_first() =~= Seq::<ReadableByteStreamQueueEntry>::empty());
        assert(queue_bytes(Seq::<ReadableByteStreamQueueEntry>::empty()) == 0);
        assert(q.push(e)[0] == e);
    } else {
        assert(q.push(e).drop_first() =~= q.drop_first().push(e));
        lemma_queue_bytes_push(q.drop_first(), e);
    }
}

/// A queue holding bytes has a first entry.
pub proof fn lemma_queue_bytes_nonempty(q: Seq<ReadableByteStreamQueueEntry>)
    requires
        queue_bytes(q) > 0,
    ensures
        q.len() > 0,
{
}

/// Taking bytes from a queue leaves the rest of its bytes in it, and keeps it
/// well formed.
pub proof fn lemma_consume_queue(q: Seq<ReadableByteStreamQueueEntry>, n: nat)
    requires
        queue_wf(q),
        n <= queue_bytes(q),
    ensures
        queue_bytes(consume_queue(q, n)) == queue_bytes(q) - n,
        queue_wf(consume_queue(q, n)),
    decreases q.len(),
{
    if n == 0 || q.len() == 0 {
    } else if q[0].byte_length <= n {
        assert(q[0].wf());
        lemma_consume_queue(q.drop_first(), (n - q[0].byte_length) as nat);
    } else {
        assert(q[0].wf());
        lemma_queue_bytes_update_first(q, advance_entry(q[0], n));
        let r = q.update(0, advance_entry(q[0], n));
        assert forall|i: int| 0 <= i < r.len() implies (#[trigger] r[i]).wf() by {
            if i != 0 {
                assert(r[i] == q[i]);
            }
        }
    }
}

/// The copies that take bytes from a queue move exactly that many bytes.
pub open spec fn copied_bytes(effects: Seq<ReadableEffect>) -> nat
    decreases effects.len(),
{
    if effects.len() == 0 {
        0
    } else {
        let here: nat = match effects[0] {
            ReadableEffect::CopyBytes { count, .. } => count as nat,
            _ => 0,
        };
        here + copied_bytes(effects.drop_first())
    }
}

/// Filling a descriptor from a queue copies as many bytes as it takes.
pub proof fn lemma_copy_effects_count(q: Seq<ReadableByteStreamQueueEntry>, n: nat, dest: u64, dest_start: nat)
    requires
        queue_wf(q),
        n <= queue_bytes(q),
    ensures
        copied_bytes(copy_effects(q, n, dest, dest_start)) == n,
    decreases q.len(),
{
    if n == 0 || q.len() == 0 {
    } else {
        assert(q[0].wf());
        let c: nat = if q[0].byte_length <= n { q[0].byte_length as nat } else { n };
        let rest = copy_effects(q.drop_first(), (n - c) as nat, dest, dest_start + c);
        lemma_copy_effects_count(q.drop_first(), (n - c) as nat, dest, dest_start + c);
        let all = copy_effects(q, n, dest, dest_start);
        assert(all.drop_first() =~= rest);
    }
}

/// Moves bytes from the head of `queue` into the descriptor `desc`, as far as
/// the queue holds bytes and the descriptor has room, stopping at a whole
/// number of elements once the minimum fill is reached. Each copy is handed to
/// the host in `effects`. Returns whether the descriptor is ready.
pub fn fill_pull_into_descriptor_from_queue(
    queue: &mut Vec<ReadableByteStreamQueueEntry>,
    queue_total_size: &mut usize,
    desc: &mut PullIntoDescriptor,
    effects: &mut Vec<ReadableEffect>,
) -> (ready: bool)
    requires
        queue_wf(old(queue)@),
        *old(queue_total_size) == queue_bytes(old(queue)@),
        old(desc).pending_wf(),
    ensures
        ready == fill_amount(*old(queue_total_size) as nat, *old(desc)).1,
        *final(desc) == filled_by(*old(desc), fill_amount(*old(queue_total_size) as nat, *old(desc)).0),
        final(queue)@ == consume_queue(old(queue)@, fill_amount(*old(queue_total_size) as nat, *old(desc)).0),
        *final(queue_total_size) == *old(queue_total_size) - fill_amount(*old(queue_total_size) as nat, *old(desc)).0,
        final(effects)@ == old(effects)@ + copy_effects(
            old(queue)@,
            fill_amount(*old(queue_total_size) as nat, *old(desc)).0,
            old(desc).buffer,
            (old(desc).byte_offset + old(desc).bytes_filled) as nat,
        ),
        queue_wf(final(queue)@),
        *final(queue_total_size) == queue_bytes(final(queue)@),
        final(desc).wf(),
{
    let ghost q0 = queue@;
    let ghost d0 = *desc;
    let ghost e0 = effects@;
    // Let maxBytesToCopy be min(queueTotalSize, byte length − bytes filled).
    let room = desc.byte_length - desc.bytes_filled;
    let max_bytes_to_copy = if *queue_total_size <= room { *queue_total_size } else { room };
    // Let maxBytesFilled be bytes filled + maxBytesToCopy.
    let max_bytes_filled = desc.bytes_filled + max_bytes_to_copy;
    let mut total_bytes_to_copy_remaining = max_bytes_to_copy;
    let mut ready = false;
    // Let maxAlignedBytes be maxBytesFilled − (maxBytesFilled mod element size).
    let remainder_bytes = max_bytes_filled % desc.element_size;
    assert(remainder_bytes <= max_bytes_filled) by (nonlinear_arith)
        requires
            remainder_bytes == max_bytes_filled % desc.element_size,
            desc.element_size > 0,
    ;
    let max_aligned_bytes = max_bytes_filled - remainder_bytes;
    // If maxAlignedBytes ≥ minimum fill, copy up to it and report ready.
    if max_aligned_bytes >= desc.minimum_fill {
        total_bytes_to_copy_remaining = max_aligned_bytes - desc.bytes_filled;
        ready = true;
    }
    let ghost amount: nat = total_bytes_to_copy_remaining as nat;
    assert(amount == fill_amount(*old(queue_total_size) as nat, d0).0);
    proof {
        lemma_consume_queue(q0, amount);
    }
    while total_bytes_to_copy_remaining > 0
        invariant
            queue_wf(queue@),
            *queue_total_size == queue_bytes(queue@),
            total_bytes_to_copy_remaining <= *queue_total_size,
            amount <= queue_bytes(q0),
            total_bytes_to_copy_remaining <= amount,
            consume_queue(q0, amount) == consume_queue(queue@, total_bytes_to_copy_remaining as nat),
            e0 + copy_effects(q0, amount, d0.buffer, (d0.byte_offset + d0.bytes_filled) as nat)
                == effects@ + copy_effects(
                    queue@,
                    total_bytes_to_copy_remaining as nat,
                    d0.buffer,
                    (desc.byte_offset + desc.bytes_filled) as nat,
                ),
            *desc == filled_by(d0, (amount - total_bytes_to_copy_remaining) as nat),
            d0.bytes_filled + amount <= d0.byte_length,
            d0.wf(),
        decreases total_bytes_to_copy_remaining,
    {
        proof {
            lemma_queue_bytes_nonempty(queue@);
        }
        let ghost qi = queue@;
        let ghost ri = total_bytes_to_copy_remaining as nat;
        let ghost ds = (desc.byte_offset + desc.bytes_filled) as nat;
        let head = queue[0];
        assert(qi[0].wf());
        let bytes_to_copy = if total_bytes_to_copy_remaining <= head.byte_length {
            total_bytes_to_copy_remaining
        } else {
            head.byte_length
        };
        let dest_start = desc.byte_offset + desc.bytes_filled;
        effects.push(ReadableEffect::CopyBytes {
            to: desc.buffer,
            to_index: dest_start,
            from: head.buffer,
            from_index: head.byte_offset,
            count: bytes_to_copy,
        });
        if head.byte_length == bytes_to_copy {
            queue.remove(0);
            assert(queue@ =~= qi.drop_first());
        } else {
            let advanced = ReadableByteStreamQueueEntry {
                buffer: head.buffer,
                byte_offset: head.byte_offset + bytes_to_copy,
                byte_length: head.byte_length - bytes_to_copy,
            };
            queue.set(0, advanced);
            proof {
                lemma_queue_bytes_update_first(qi, advanced);
                assert forall|i: int| 0 <= i < queue@.len() implies (#[trigger] queue@[i]).wf() by {
                    if i != 0 {
                        assert(queue@[i] == qi[i]);
                    }
                }
            }
        }
        *queue_total_size = *queue_total_size - bytes_to_copy;
        total_bytes_to_copy_remaining = total_bytes_to_copy_remaining - bytes_to_copy;
        desc.bytes_filled = desc.bytes_filled + bytes_to_copy;
        proof {
            let c = bytes_to_copy as nat;
            let step = seq![ReadableEffect::CopyBytes {
                to: d0.buffer,
                to_index: ds as usize,
                from: qi[0].buffer,
                from_index: qi[0].byte_offset,
                count: c as usize,
            }];
            assert(copy_effects(qi, ri, d0.buffer, ds) == step + copy_effects(
                qi.drop_first(),
                (ri - c) as nat,
                d0.buffer,
                ds + c,
            ));
            if head.byte_length == bytes_to_copy {
                assert(consume_queue(qi, ri) == consume_queue(qi.drop_first(), (ri - c) as nat));
            } else {
                assert(ri - c == 0);
                assert(consume_queue(qi, ri) == queue@);
                assert(copy_effects(qi.drop_first(), 0, d0.buffer, ds + c) =~= seq![]);
                assert(copy_effects(queue@, 0, d0.buffer, ds + c) =~= seq![]);
            }
            assert(e0 + copy_effects(q0, amount, d0.buffer, (d0.byte_offset + d0.bytes_filled) as nat)
                =~= effects@ + copy_effects(queue@, (ri - c) as nat, d0.buffer, ds + c));
        }
    }
    assert(consume_queue(queue@, 0) == queue@);
    assert(copy_effects(queue@, 0, d0.buffer, (desc.byte_offset + desc.bytes_filled) as nat) =~= seq![]);
    assert(effects@ =~= e0 + copy_effects(q0, amount, d0.buffer, (d0.byte_offset + d0.bytes_filled) as nat));
    ready
}

/// A descriptor that is not ready after a fill has taken every byte of the
/// queue and still waits for bytes.
pub proof fn lemma_fill_not_ready(total: nat, d: PullIntoDescriptor)
    requires
        d.pending_wf(),
        !fill_amount(total, d).1,
    ensures
        fill_amount(total, d).0 == total,
        filled_by(d, total).pending_wf(),
        total <= d.byte_length - d.bytes_filled,
{
    let es = d.element_size as int;
    assert(es > 0);
    let room = d.byte_length - d.bytes_filled;
    if total > room {
        let mbf = d.byte_length as int;
        assert(mbf % es == 0);
        assert(false);
    }
    let mbf = d.bytes_filled + total;
    let aligned = mbf - mbf % es;
    let m = d.minimum_fill as int;
    assert(aligned < m);
    lemma_aligned_below(mbf, es, m);
}

/// Below a multiple `m` of `es`, a number whose largest multiple of `es` is
/// below `m` lies itself below `m`.
pub proof fn lemma_aligned_below(x: int, es: int, m: int)
    requires
        x >= 0,
        es > 0,
        m >= 0,
        m % es == 0,
        x - x % es < m,
    ensures
        x < m,
{
    assert(x - x % es < m ==> x < m) by (nonlinear_arith)
        requires
            x >= 0,
            es > 0,
            m >= 0,
            m % es == 0,
    {
        let q = x / es;
        let r = x % es;
        assert(x == q * es + r);
        assert(0 <= r < es);
        let k = m / es;
        assert(m == k * es);
        if x - r < m {
            assert(q * es < k * es);
            assert(q < k);
            assert(q + 1 <= k);
            assert((q + 1) * es <= k * es);
            assert(x < (q + 1) * es);
        }
    }
}

/// Copies `count` bytes of `from_block` starting at `from_index` into
/// `to_block` starting at `to_index`, leaving every other byte of `to_block`
/// as it was.
pub fn copy_data_block_bytes(
    to_block: &mut Vec<u8>,
    to_index: usize,
    from_block: &Vec<u8>,
    from_index: usize,
    count: usize,
)
    requires
        to_index + count <= old(to_block)@.len(),
        from_index + count <= from_block@.len(),
    ensures
        final(to_block)@ == old(to_block)@.take(to_index as int)
            + from_block@.subrange(from_index as int, from_index + count)
            + old(to_block)@.skip(to_index + count),
{
    let ghost t0 = to_block@;
    let mut i: usize = 0;
    while i < count
        invariant
            i <= count,
            to_index + count <= t0.len(),
            to_index + count <= to_block.len(),
            from_index + count <= from_block.len(),
            to_block@.len() == t0.len(),
            forall|j: int| 0 <= j < to_index ==> to_block@[j] == t0[j],
            forall|j: int| to_index + count <= j < t0.len() ==> to_block@[j] == t0[j],
            forall|j: int| to_index + i <= j < to_index + count ==> to_block@[j] == t0[j],
            forall|j: int| to_index <= j < to_index + i ==> #[trigger] to_block@[j] == from_block@[from_index + (j - to_index)],
        decreases count - i,
    {
        let b = from_block[from_index + i];
        to_block.set(to_index + i, b);
        i = i + 1;
    }
    assert(to_block@ =~= t0.take(to_index as int) + from_block@.subrange(from_index as int, from_index + count)
        + t0.skip(to_index + count));
}

/// The view handed to a reader when a descriptor is committed: the filled
/// bytes, as whole elements of the descriptor's view type.
pub open spec fn spec_filled_view(d: PullIntoDescriptor) -> crate::effect::Chunk {
    crate::effect::Chunk::View {
        buffer: d.buffer,
        byte_offset: d.byte_offset,
        length: (d.bytes_filled / d.element_size) as usize,
        view: d.view_type,
    }
}

/// Converts a filled descriptor into the view its reader receives, after its
/// buffer was transferred: `bytes filled ÷ element size` elements from the
/// descriptor's byte offset.
pub fn convert_pull_into_descriptor(
    desc: &PullIntoDescriptor,
    effects: &mut Vec<ReadableEffect>,
) -> (view: crate::effect::Chunk)
    requires
        desc.wf(),
    ensures
        view == spec_filled_view(*desc),
        final(effects)@ == old(effects)@.push(ReadableEffect::TransferBuffer { buffer: desc.buffer }),
{
    effects.push(ReadableEffect::TransferBuffer { buffer: desc.buffer });
    crate::effect::Chunk::View {
        buffer: desc.buffer,
        byte_offset: desc.byte_offset,
        length: desc.bytes_filled / desc.element_size,
        view: desc.view_type,
    }
}

} // verus!
