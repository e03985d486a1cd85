//! A fixed-capacity circular byte buffer for one producer and one consumer.
//!
//! Both cursors are 64-bit counters that only ever grow; a cursor's place in
//! the backing storage is the cursor modulo the capacity, and the occupied
//! space is the difference of the two cursors.

use vstd::prelude::*;
use vstd::arithmetic::div_mod::lemma_fundamental_div_mod;
use vstd::arithmetic::div_mod::lemma_fundamental_div_mod_converse;
use vstd::arithmetic::div_mod::lemma_mod_pos_bound;
use crate::ring_model::capacity_valid;
use crate::ring_model::RingView;
use crate::ring_model::MAX_CAPACITY;

verus! {

/// Why a ring buffer could not be created.
#[derive(Clone, Copy, Debug, PartialEq, Eq, Structural)]
pub enum RingBufferError {
    /// The requested capacity was zero.
    ZeroCapacity,
    /// The requested capacity was above the maximum.
    CapacityTooLarge,
    /// The backing storage could not be allocated.
    AllocationFailed,
}

/// The error that a capacity is rejected with, if it is rejected.
pub open spec fn capacity_error(capacity: int) -> Option<RingBufferError> {
    if capacity == 0 {
        Some(RingBufferError::ZeroCapacity)
    } else if capacity > MAX_CAPACITY {
        Some(RingBufferError::CapacityTooLarge)
    } else {
        None
    }
}

/// A circular byte buffer of fixed capacity.
pub struct PepperRingBuffer {
    write_pos: u64,
    read_pos: u64,
    capacity: usize,
    data: Vec<u8>,
    enqueued: Ghost<Seq<u8>>,
}

/// Where a cursor that is `k` bytes past `w` lies in storage of `c` bytes.
proof fn lemma_mod_shift(w: int, k: int, c: int)
    requires
        c > 0,
        w >= 0,
        0 <= k < c,
    ensures
        0 <= w % c < c,
        (w + k) % c == if w % c + k < c {
            w % c + k
        } else {
            w % c + k - c
        },
{
    lemma_mod_pos_bound(w, c);
    lemma_fundamental_div_mod(w, c);
    let q = w / c;
    let r = w % c;
    assert(c * q == q * c) by (nonlinear_arith);
    if r + k < c {
        lemma_fundamental_div_mod_converse(w + k, c, q, r + k);
    } else {
        assert((q + 1) * c == q * c + c) by (nonlinear_arith);
        lemma_fundamental_div_mod_converse(w + k, c, q + 1, r + k - c);
    }
}

/// Two cursors less than `c` apart lie at different places in storage.
proof fn lemma_mod_distinct(a: int, b: int, c: int)
    requires
        c > 0,
        0 <= a < b < a + c,
    ensures
        a % c != b % c,
{
    lemma_mod_shift(a, b - a, c);
}

/// Copies `len` bytes of `src`, from index `from` on, over `dst` from index
/// `at` on.
fn copy_bytes(dst: &mut [u8], at: usize, src: &[u8], from: usize, len: usize)
    requires
        at + len <= old(dst)@.len(),
        from + len <= src@.len(),
    ensures
        final(dst)@.len() == old(dst)@.len(),
        forall|i: int|
            0 <= i < old(dst)@.len() ==> #[trigger] final(dst)@[i] == if at <= i < at + len {
                src@[from + (i - at)]
            } else {
                old(dst)@[i]
            },
{
    let dst_len: usize = dst.len();
    let src_len: usize = src.len();
    let mut k: usize = 0;
    while k < len
        invariant
            k <= len,
            at + len <= dst_len,
            from + len <= src_len,
            dst_len == old(dst)@.len(),
            src_len == src@.len(),
            dst@.len() == old(dst)@.len(),
            forall|i: int|
                0 <= i < old(dst)@.len() ==> #[trigger] dst@[i] == if at <= i < at + k {
                    src@[from + (i - at)]
                } else {
                    old(dst)@[i]
                },
        decreases len - k,
    {
        dst[at + k] = src[from + k];
        k += 1;
    }
}

impl View for PepperRingBuffer {
    type V = RingView;

    closed spec fn view(&self) -> RingView {
        RingView {
            capacity: self.capacity as nat,
            enqueued: self.enqueued@,
            dequeued: self.read_pos as nat,
        }
    }
}

impl PepperRingBuffer {
    /// The storage holds what the model says: it has `capacity` bytes, the
    /// write cursor stands at the end of the stream, and each waiting byte
    /// lies at its cursor modulo the capacity.
    pub closed spec fn storage_ok(&self) -> bool {
        &&& self.data@.len() == self.capacity
        &&& self.write_pos == self.enqueued@.len()
        &&& forall|i: int|
            self.read_pos <= i < self.write_pos ==> self.data@[i % (self.capacity as int)]
                == #[trigger] self.enqueued@[i]
    }

    /// The buffer is well-formed: its cursors obey the invariant of the
    /// model and its storage agrees with it.
    pub open spec fn wf(&self) -> bool {
        &&& self@.wf()
        &&& self.storage_ok()
    }

    /// Creates an empty ring buffer with `capacity` bytes of storage.
    ///
    /// A capacity of zero or above [`MAX_CAPACITY`] is rejected before
    /// anything is allocated. For a valid capacity the only failure is that
    /// of the allocator.
    pub fn new(capacity: usize) -> (r: Result<PepperRingBuffer, RingBufferError>)
        ensures
            match r {
                Ok(rb) => rb.wf() && rb@ == RingView::empty(capacity as nat),
                Err(RingBufferError::AllocationFailed) => capacity_valid(capacity as int),
                Err(e) => capacity_error(capacity as int) == Some(e),
            },
            r is Ok ==> capacity_valid(capacity as int),
    {
        if capacity == 0 {
            return Err(RingBufferError::ZeroCapacity);
        }
        if capacity > MAX_CAPACITY {
            return Err(RingBufferError::CapacityTooLarge);
        }
        let mut storage: Vec<u8> = Vec::new();
        if storage.try_reserve(capacity).is_err() {
            return Err(RingBufferError::AllocationFailed);
        }
        while storage.len() < capacity
            invariant
                storage@.len() <= capacity,
            decreases capacity - storage@.len(),
        {
            storage.push(0u8);
        }
        PepperRingBuffer::from_storage(storage)
    }

    /// Creates an empty ring buffer over `storage`, whose length becomes the
    /// capacity. Fails exactly when that length is zero or above
    /// [`MAX_CAPACITY`].
    pub fn from_storage(storage: Vec<u8>) -> (r: Result<PepperRingBuffer, RingBufferError>)
        ensures
            match r {
                Ok(rb) => rb.wf() && rb@ == RingView::empty(storage@.len()),
                Err(e) => capacity_error(storage@.len() as int) == Some(e),
            },
            r is Ok <==> capacity_valid(storage@.len() as int),
    {
        let capacity: usize = storage.len();
        if capacity == 0 {
            return Err(RingBufferError::ZeroCapacity);
        }
        if capacity > MAX_CAPACITY {
            return Err(RingBufferError::CapacityTooLarge);
        }
        Ok(
            PepperRingBuffer {
                write_pos: 0,
                read_pos: 0,
                capacity,
                data: storage,
                enqueued: Ghost(Seq::empty()),
            },
        )
    }

    /// The capacity that the buffer was created with.
    pub fn capacity(&self) -> (c: usize)
        ensures
            c == self@.capacity,
    {
        self.capacity
    }

    /// Occupied space in bytes.
    pub fn used(&self) -> (n: usize)
        requires
            self.wf(),
        ensures
            n == self@.used(),
            n <= self@.capacity - 1,
    {
        (self.write_pos - self.read_pos) as usize
    }

    /// Free space in bytes; one byte of the capacity is never handed out.
    pub fn available(&self) -> (n: usize)
        requires
            self.wf(),
        ensures
            n == self@.free(),
            n + self@.used() == self@.capacity - 1,
    {
        self.capacity - 1 - self.used()
    }

    /// Appends as many of the bytes of `data` as fit and returns how many
    /// were taken, from the front of `data`. Returns 0 when the buffer is
    /// full or `data` is empty.
    pub fn enqueue(&mut self, data: &[u8]) -> (n: usize)
        requires
            old(self).wf(),
        ensures
            final(self).wf(),
            n == old(self)@.accepts(data@.len()),
            n <= data@.len(),
            n <= old(self)@.free(),
            final(self)@ == old(self)@.enqueue(data@),
            final(self)@.contents() == old(self)@.contents() + data@.subrange(0, n as int),
            final(self)@.used() == old(self)@.used() + n,
    {
        if data.len() == 0 {
            proof {
                assert(self@.enqueue(data@).enqueued =~= self@.enqueued);
                crate::ring_model::lemma_enqueue(self@, data@);
            }
            return 0;
        }
        let free: usize = self.available();
        let room: u64 = u64::MAX - self.write_pos;
        let mut to_write: usize = if data.len() <= free {
            data.len()
        } else {
            free
        };
        if to_write as u64 > room {
            to_write = room as usize;
        }
        let pos: usize = (self.write_pos % (self.capacity as u64)) as usize;
        let first: usize = if to_write <= self.capacity - pos {
            to_write
        } else {
            self.capacity - pos
        };
        let ghost before = *self;
        let ghost c = self.capacity as int;
        let ghost w = self.write_pos as int;
        copy_bytes(self.data.as_mut_slice(), pos, data, 0, first);
        copy_bytes(self.data.as_mut_slice(), 0, data, first, to_write - first);
        self.write_pos = self.write_pos + to_write as u64;
        self.enqueued = Ghost(self.enqueued@ + data@.subrange(0, to_write as int));
        proof {
            crate::ring_model::lemma_enqueue(before@, data@);
            assert forall|i: int| self.read_pos <= i < self.write_pos implies self.data@[i % c]
                == #[trigger] self.enqueued@[i] by {
                if i < w {
                    lemma_mod_shift(i, 0, c);
                    let m = i % c;
                    if pos <= m < pos + first {
                        lemma_mod_shift(w, m - pos, c);
                        lemma_mod_distinct(i, w + (m - pos), c);
                    }
                    if 0 <= m < to_write - first {
                        lemma_mod_shift(w, first + m, c);
                        lemma_mod_distinct(i, w + first + m, c);
                    }
                    assert(self.data@[m] == before.data@[m]);
                } else {
                    lemma_mod_shift(w, i - w, c);
                }
            }
        }
        to_write
    }

    /// Moves the oldest waiting bytes to the front of `data`, as many as
    /// `data` has room for, and returns how many were moved. Returns 0 when
    /// the buffer is empty or `data` has no room. The rest of `data` is left
    /// as it was.
    pub fn dequeue(&mut self, data: &mut [u8]) -> (n: usize)
        requires
            old(self).wf(),
        ensures
            final(self).wf(),
            n == old(self)@.yields(old(data)@.len()),
            n <= old(data)@.len(),
            n <= old(self)@.used(),
            final(self)@ == old(self)@.dequeue(old(data)@.len()),
            final(data)@.len() == old(data)@.len(),
            final(data)@.subrange(0, n as int) == old(self)@.output(old(data)@.len()),
            forall|k: int|
                0 <= k < n ==> #[trigger] final(data)@[k] == old(self)@.enqueued[old(
                    self,
                )@.dequeued + k],
            final(data)@.subrange(n as int, old(data)@.len() as int) == old(data)@.subrange(
                n as int,
                old(data)@.len() as int,
            ),
            final(self)@.used() == old(self)@.used() - n,
    {
        let used: usize = self.used();
        let to_read: usize = if data.len() <= used {
            data.len()
        } else {
            used
        };
        let pos: usize = (self.read_pos % (self.capacity as u64)) as usize;
        let first: usize = if to_read <= self.capacity - pos {
            to_read
        } else {
            self.capacity - pos
        };
        let ghost c = self.capacity as int;
        let ghost r = self.read_pos as int;
        copy_bytes(data, 0, self.data.as_slice(), pos, first);
        copy_bytes(data, first, self.data.as_slice(), 0, to_read - first);
        proof {
            crate::ring_model::lemma_dequeue(self@, old(data)@.len());
            assert forall|k: int| 0 <= k < to_read implies data@[k] == self.enqueued@[r + k] by {
                lemma_mod_shift(r, k, c);
            }
            assert(data@.subrange(0, to_read as int) =~= self@.output(old(data)@.len()));
            assert(data@.subrange(to_read as int, old(data)@.len() as int) =~= old(data)@.subrange(
                to_read as int,
                old(data)@.len() as int,
            ));
        }
        self.read_pos = self.read_pos + to_read as u64;
        to_read
    }
}

} // verus!
