//! The mathematical model of the ring buffer: an unbounded byte stream with
//! two cursors, and the laws that every sequence of operations obeys.

use vstd::prelude::*;

verus! {

/// Largest capacity, in bytes, that a ring buffer can be created with (64 MiB).
pub const MAX_CAPACITY: usize = 67108864;

/// Whether a ring buffer of `capacity` bytes can be created.
pub open spec fn capacity_valid(capacity: int) -> bool {
    0 < capacity <= MAX_CAPACITY
}

/// The smaller of two naturals.
pub open spec fn min_nat(a: nat, b: nat) -> nat {
    if a <= b {
        a
    } else {
        b
    }
}

/// What a ring buffer stands for.
///
/// The write cursor is `enqueued.len()`, the read cursor is `dequeued`; both
/// only ever grow. The bytes that wait in the buffer are the part of the
/// stream between the two cursors.
pub struct RingView {
    /// Size of the backing storage in bytes. One byte of it is never used.
    pub capacity: nat,
    /// Every byte that was ever accepted, in the order of acceptance.
    pub enqueued: Seq<u8>,
    /// How many bytes of `enqueued` have been handed out.
    pub dequeued: nat,
}

/// One call made on a ring buffer.
pub enum RingOp {
    /// An attempt to append these bytes.
    Enqueue(Seq<u8>),
    /// An attempt to take bytes into a target of this length.
    Dequeue(nat),
}

impl RingView {
    /// The state right after creation with `capacity` bytes of storage.
    pub open spec fn empty(capacity: nat) -> RingView {
        RingView { capacity, enqueued: Seq::empty(), dequeued: 0 }
    }

    /// The cursor invariant: the read cursor never passes the write cursor,
    /// the two are never more than `capacity - 1` apart, and the write cursor
    /// fits in 64 bits.
    pub open spec fn wf(self) -> bool {
        &&& capacity_valid(self.capacity as int)
        &&& self.dequeued <= self.enqueued.len()
        &&& self.enqueued.len() - self.dequeued <= self.capacity - 1
        &&& self.enqueued.len() <= u64::MAX
    }

    /// Occupied space in bytes: the distance between the cursors.
    pub open spec fn used(self) -> nat {
        (self.enqueued.len() - self.dequeued) as nat
    }

    /// Free space in bytes, with the reserved byte taken off.
    pub open spec fn free(self) -> nat {
        (self.capacity - 1 - self.used()) as nat
    }

    /// The bytes that wait in the buffer, oldest first.
    pub open spec fn contents(self) -> Seq<u8> {
        self.enqueued.subrange(self.dequeued as int, self.enqueued.len() as int)
    }

    /// The bytes handed out so far: all dequeued segments, joined in order.
    pub open spec fn delivered(self) -> Seq<u8> {
        self.enqueued.subrange(0, self.dequeued as int)
    }

    /// How far the write cursor can still advance before it would leave the
    /// 64-bit range. The cursor is never wrapped, so the stream ends there.
    pub open spec fn cursor_room(self) -> nat {
        (u64::MAX - self.enqueued.len()) as nat
    }

    /// How many bytes of an input of length `len` an enqueue accepts: as many
    /// as fit in the free space (and below the end of the cursor range).
    pub open spec fn accepts(self, len: nat) -> nat {
        min_nat(len, min_nat(self.free(), self.cursor_room()))
    }

    /// The state after an enqueue of `bytes`.
    pub open spec fn enqueue(self, bytes: Seq<u8>) -> RingView {
        RingView {
            enqueued: self.enqueued + bytes.subrange(0, self.accepts(bytes.len()) as int),
            ..self
        }
    }

    /// How many bytes a dequeue into a target of length `len` moves.
    pub open spec fn yields(self, len: nat) -> nat {
        min_nat(len, self.used())
    }

    /// The bytes that a dequeue into a target of length `len` hands out.
    pub open spec fn output(self, len: nat) -> Seq<u8> {
        self.contents().subrange(0, self.yields(len) as int)
    }

    /// The state after a dequeue into a target of length `len`.
    pub open spec fn dequeue(self, len: nat) -> RingView {
        RingView { dequeued: self.dequeued + self.yields(len), ..self }
    }

    /// The state after one operation.
    pub open spec fn apply(self, op: RingOp) -> RingView {
        match op {
            RingOp::Enqueue(bytes) => self.enqueue(bytes),
            RingOp::Dequeue(len) => self.dequeue(len),
        }
    }

    /// The state after a sequence of operations, first to last.
    pub open spec fn run(self, ops: Seq<RingOp>) -> RingView
        decreases ops.len(),
    {
        if ops.len() == 0 {
            self
        } else {
            self.run(ops.drop_last()).apply(ops.last())
        }
    }

    /// The bytes that the enqueues among `ops` accepted, joined in order.
    pub open spec fn accepted_by(self, ops: Seq<RingOp>) -> Seq<u8>
        decreases ops.len(),
    {
        if ops.len() == 0 {
            Seq::empty()
        } else {
            let before = self.run(ops.drop_last());
            let earlier = self.accepted_by(ops.drop_last());
            match ops.last() {
                RingOp::Enqueue(bytes) => earlier + bytes.subrange(
                    0,
                    before.accepts(bytes.len()) as int,
                ),
                RingOp::Dequeue(_) => earlier,
            }
        }
    }

    /// The bytes that the dequeues among `ops` handed out, joined in order.
    pub open spec fn delivered_by(self, ops: Seq<RingOp>) -> Seq<u8>
        decreases ops.len(),
    {
        if ops.len() == 0 {
            Seq::empty()
        } else {
            let before = self.run(ops.drop_last());
            let earlier = self.delivered_by(ops.drop_last());
            match ops.last() {
                RingOp::Enqueue(_) => earlier,
                RingOp::Dequeue(len) => earlier + before.output(len),
            }
        }
    }
}

/// An enqueue keeps the cursor invariant, never accepts more than it was
/// given or more than the free space, and appends what it accepts behind the
/// bytes that already wait.
pub proof fn lemma_enqueue(v: RingView, bytes: Seq<u8>)
    requires
        v.wf(),
    ensures
        v.enqueue(bytes).wf(),
        v.accepts(bytes.len()) <= bytes.len(),
        v.accepts(bytes.len()) <= v.free(),
        v.enqueue(bytes).used() == v.used() + v.accepts(bytes.len()),
        v.enqueue(bytes).contents() == v.contents() + bytes.subrange(
            0,
            v.accepts(bytes.len()) as int,
        ),
        v.enqueue(bytes).delivered() == v.delivered(),
{
    let n = v.accepts(bytes.len());
    let after = v.enqueue(bytes);
    assert(after.contents() =~= v.contents() + bytes.subrange(0, n as int));
    assert(after.delivered() =~= v.delivered());
}

/// A dequeue keeps the cursor invariant, hands out the oldest waiting bytes,
/// and leaves the rest waiting in the same order.
pub proof fn lemma_dequeue(v: RingView, len: nat)
    requires
        v.wf(),
    ensures
        v.dequeue(len).wf(),
        v.yields(len) <= len,
        v.yields(len) <= v.used(),
        v.dequeue(len).used() == v.used() - v.yields(len),
        v.output(len) + v.dequeue(len).contents() == v.contents(),
        v.dequeue(len).delivered() == v.delivered() + v.output(len),
        v.dequeue(len).enqueued == v.enqueued,
{
    let after = v.dequeue(len);
    assert(v.output(len) + after.contents() =~= v.contents());
    assert(after.delivered() =~= v.delivered() + v.output(len));
}

/// The capacity invariant: whatever operations are made on a well-formed
/// buffer, it stays well-formed, so the occupied space never exceeds
/// `capacity - 1` and the capacity never changes.
pub proof fn lemma_capacity_invariant(start: RingView, ops: Seq<RingOp>)
    requires
        start.wf(),
    ensures
        start.run(ops).wf(),
        start.run(ops).capacity == start.capacity,
        start.run(ops).used() <= start.capacity - 1,
    decreases ops.len(),
{
    if ops.len() > 0 {
        lemma_capacity_invariant(start, ops.drop_last());
        let before = start.run(ops.drop_last());
        match ops.last() {
            RingOp::Enqueue(bytes) => lemma_enqueue(before, bytes),
            RingOp::Dequeue(len) => lemma_dequeue(before, len),
        }
    }
}

/// The cursors only grow: whatever operations are made on a well-formed
/// buffer, the stream it held is a prefix of the stream it holds afterwards,
/// and the read cursor stands where it stood or further on.
pub proof fn lemma_cursors_only_grow(start: RingView, ops: Seq<RingOp>)
    requires
        start.wf(),
    ensures
        start.enqueued.is_prefix_of(start.run(ops).enqueued),
        start.dequeued <= start.run(ops).dequeued,
    decreases ops.len(),
{
    if ops.len() > 0 {
        lemma_cursors_only_grow(start, ops.drop_last());
        lemma_capacity_invariant(start, ops.drop_last());
    }
}

/// First in, first out: whatever operations are made on a well-formed
/// buffer, the accepted bytes extend the stream in order, the bytes handed
/// out extend what was delivered in order, and everything delivered is a
/// prefix of everything accepted.
pub proof fn lemma_fifo(start: RingView, ops: Seq<RingOp>)
    requires
        start.wf(),
    ensures
        start.run(ops).enqueued == start.enqueued + start.accepted_by(ops),
        start.run(ops).delivered() == start.delivered() + start.delivered_by(ops),
        start.run(ops).delivered().is_prefix_of(start.run(ops).enqueued),
    decreases ops.len(),
{
    if ops.len() == 0 {
        assert(start.enqueued + start.accepted_by(ops) =~= start.enqueued);
        assert(start.delivered() + start.delivered_by(ops) =~= start.delivered());
    } else {
        let head = ops.drop_last();
        lemma_fifo(start, head);
        lemma_capacity_invariant(start, head);
        let before = start.run(head);
        match ops.last() {
            RingOp::Enqueue(bytes) => {
                lemma_enqueue(before, bytes);
                let taken = bytes.subrange(0, before.accepts(bytes.len()) as int);
                assert((start.enqueued + start.accepted_by(head)) + taken =~= start.enqueued
                    + (start.accepted_by(head) + taken));
            },
            RingOp::Dequeue(len) => {
                lemma_dequeue(before, len);
                let out = before.output(len);
                assert((start.delivered() + start.delivered_by(head)) + out =~= start.delivered()
                    + (start.delivered_by(head) + out));
            },
        }
    }
    lemma_capacity_invariant(start, ops);
    assert(start.run(ops).delivered().is_prefix_of(start.run(ops).enqueued));
}

/// First in, first out, from creation: on a buffer that starts empty, the
/// dequeued segments joined in order are a prefix of the accepted segments
/// joined in order. Nothing is reordered, duplicated or lost.
pub proof fn lemma_fifo_from_empty(capacity: nat, ops: Seq<RingOp>)
    requires
        capacity_valid(capacity as int),
    ensures
        RingView::empty(capacity).delivered_by(ops).is_prefix_of(
            RingView::empty(capacity).accepted_by(ops),
        ),
{
    let start = RingView::empty(capacity);
    lemma_fifo(start, ops);
    assert(start.enqueued + start.accepted_by(ops) =~= start.accepted_by(ops));
    assert(start.delivered() + start.delivered_by(ops) =~= start.delivered_by(ops));
}

/// Round trip: bytes that fit in the free space, enqueued and then dequeued
/// into a target that has room for everything waiting, come back unchanged
/// behind the bytes that waited before them; from an empty buffer they come
/// back alone.
pub proof fn lemma_round_trip(v: RingView, bytes: Seq<u8>, len: nat)
    requires
        v.wf(),
        bytes.len() <= v.free(),
        bytes.len() <= v.cursor_room(),
        len >= v.used() + bytes.len(),
    ensures
        v.accepts(bytes.len()) == bytes.len(),
        v.enqueue(bytes).output(len) == v.contents() + bytes,
        v.used() == 0 ==> v.enqueue(bytes).output(len) == bytes,
        v.enqueue(bytes).dequeue(len).used() == 0,
{
    lemma_enqueue(v, bytes);
    let mid = v.enqueue(bytes);
    assert(bytes.subrange(0, bytes.len() as int) =~= bytes);
    assert(mid.output(len) =~= mid.contents());
    if v.used() == 0 {
        assert(v.contents() + bytes =~= bytes);
    }
}

} // verus!
