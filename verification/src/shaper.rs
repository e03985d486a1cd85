//! A shaping session: one ring buffer and one pacer for each
//! direction of a stream between two endpoints, under one set of pacing
//! parameters.

use vstd::prelude::*;
use crate::pacing::can_send;
use crate::pacing::get_time_ns;
use crate::pacing::update_after_send;
use crate::pacing::update_metrics;
use crate::pacing::PepperPacingState;
use crate::pacing_model::after_check;
use crate::pacing_model::after_metrics;
use crate::pacing_model::after_send;
use crate::pacing_model::initial_state;
use crate::pacing_model::may_send;
use crate::pacing_model::within_burst;
use crate::pacing_model::PacingSnapshot;
use crate::pacing_model::PepperPacingParams;
use crate::queue::capacity_error;
use crate::queue::PepperRingBuffer;
use crate::queue::RingBufferError;
use crate::ring_model::capacity_valid;
use crate::ring_model::RingView;

verus! {

/// One of the two directions of a session.
#[derive(Clone, Copy, Debug, PartialEq, Eq, Structural)]
pub enum Direction {
    /// From the local endpoint to the wire.
    Transmit,
    /// From the wire to the local endpoint.
    Receive,
}

/// Why an operation on a session failed.
#[derive(Clone, Copy, Debug, PartialEq, Eq, Structural)]
pub enum ShaperError {
    /// An endpoint identifier was negative.
    InvalidDescriptor,
    /// A ring buffer could not be created.
    Buffer(RingBufferError),
    /// The session was deactivated; it no longer changes.
    Inactive,
}

/// What a session stands for.
pub struct ShaperView {
    /// The identity of the session.
    pub id: i64,
    /// The endpoint that is read from.
    pub read_fd: i32,
    /// The endpoint that is written to.
    pub write_fd: i32,
    /// The mode that the session was attached in; carried, never read.
    pub mode: i32,
    /// Whether the session is still in use.
    pub active: bool,
    /// The buffer of the transmit direction.
    pub tx_queue: RingView,
    /// The buffer of the receive direction.
    pub rx_queue: RingView,
    /// The pacer of the transmit direction.
    pub tx_pacing: PacingSnapshot,
    /// The pacer of the receive direction.
    pub rx_pacing: PacingSnapshot,
    /// The parameters that both pacers run under.
    pub params: PepperPacingParams,
}

impl ShaperView {
    /// The buffer of a direction.
    pub open spec fn queue(self, direction: Direction) -> RingView {
        match direction {
            Direction::Transmit => self.tx_queue,
            Direction::Receive => self.rx_queue,
        }
    }

    /// The pacer of a direction.
    pub open spec fn pacing(self, direction: Direction) -> PacingSnapshot {
        match direction {
            Direction::Transmit => self.tx_pacing,
            Direction::Receive => self.rx_pacing,
        }
    }

    /// This session with the buffer of one direction replaced.
    pub open spec fn with_queue(self, direction: Direction, queue: RingView) -> ShaperView {
        match direction {
            Direction::Transmit => ShaperView { tx_queue: queue, ..self },
            Direction::Receive => ShaperView { rx_queue: queue, ..self },
        }
    }

    /// This session with the pacer of one direction replaced.
    pub open spec fn with_pacing(self, direction: Direction, pacing: PacingSnapshot) -> ShaperView {
        match direction {
            Direction::Transmit => ShaperView { tx_pacing: pacing, ..self },
            Direction::Receive => ShaperView { rx_pacing: pacing, ..self },
        }
    }

    /// This session under new parameters from `now` on: both pacers start
    /// afresh, the buffers keep what they hold.
    pub open spec fn with_params(self, params: PepperPacingParams, now: u64) -> ShaperView {
        ShaperView {
            params,
            tx_pacing: initial_state(params, now),
            rx_pacing: initial_state(params, now),
            ..self
        }
    }

    /// A session as it is right after creation at `now` over the two given
    /// buffers.
    pub open spec fn fresh(
        id: i64,
        read_fd: i32,
        write_fd: i32,
        mode: i32,
        tx_queue: RingView,
        rx_queue: RingView,
        params: PepperPacingParams,
        now: u64,
    ) -> ShaperView {
        ShaperView {
            id,
            read_fd,
            write_fd,
            mode,
            active: true,
            tx_queue,
            rx_queue,
            tx_pacing: initial_state(params, now),
            rx_pacing: initial_state(params, now),
            params,
        }
    }

    /// The invariant of a session: valid endpoints, well-formed buffers, and
    /// both token buckets within the burst size.
    pub open spec fn wf(self) -> bool {
        &&& endpoints_valid(self.read_fd, self.write_fd)
        &&& self.tx_queue.wf()
        &&& self.rx_queue.wf()
        &&& within_burst(self.tx_pacing, self.params)
        &&& within_burst(self.rx_pacing, self.params)
    }
}

/// Whether two endpoint identifiers can belong to a session: neither is
/// negative.
pub open spec fn endpoints_valid(read_fd: i32, write_fd: i32) -> bool {
    read_fd >= 0 && write_fd >= 0
}

/// A shaping session.
pub struct PepperShaperHandle {
    id: i64,
    read_fd: i32,
    write_fd: i32,
    mode: i32,
    active: bool,
    tx_queue: PepperRingBuffer,
    rx_queue: PepperRingBuffer,
    tx_pacing: PepperPacingState,
    rx_pacing: PepperPacingState,
    pacing_params: PepperPacingParams,
}

impl View for PepperShaperHandle {
    type V = ShaperView;

    closed spec fn view(&self) -> ShaperView {
        ShaperView {
            id: self.id,
            read_fd: self.read_fd,
            write_fd: self.write_fd,
            mode: self.mode,
            active: self.active,
            tx_queue: self.tx_queue@,
            rx_queue: self.rx_queue@,
            tx_pacing: self.tx_pacing@,
            rx_pacing: self.rx_pacing@,
            params: self.pacing_params,
        }
    }
}

impl PepperShaperHandle {
    /// The storage of both buffers agrees with what they stand for.
    pub closed spec fn storage_ok(&self) -> bool {
        self.tx_queue.storage_ok() && self.rx_queue.storage_ok()
    }

    /// The session is well-formed.
    pub open spec fn wf(&self) -> bool {
        self@.wf() && self.storage_ok()
    }

    /// Creates an active session between two endpoints, with a buffer of
    /// `capacity` bytes for each direction and both pacers starting now, by
    /// the system clock.
    ///
    /// Fails, before anything is allocated, where an endpoint identifier is
    /// negative or the capacity is zero or above the maximum. Otherwise the
    /// only failure is that of the allocator.
    pub fn create(
        id: i64,
        read_fd: i32,
        write_fd: i32,
        mode: i32,
        capacity: usize,
        params: PepperPacingParams,
    ) -> (r: Result<PepperShaperHandle, ShaperError>)
        ensures
            match r {
                Ok(handle) => {
                    &&& handle.wf()
                    &&& endpoints_valid(read_fd, write_fd)
                    &&& capacity_valid(capacity as int)
                    &&& handle@ == ShaperView::fresh(
                        id,
                        read_fd,
                        write_fd,
                        mode,
                        RingView::empty(capacity as nat),
                        RingView::empty(capacity as nat),
                        params,
                        handle@.tx_pacing.last_update_ns,
                    )
                },
                Err(ShaperError::InvalidDescriptor) => !endpoints_valid(read_fd, write_fd),
                Err(ShaperError::Buffer(RingBufferError::AllocationFailed)) => endpoints_valid(
                    read_fd,
                    write_fd,
                ) && capacity_valid(capacity as int),
                Err(ShaperError::Buffer(e)) => endpoints_valid(read_fd, write_fd) && capacity_error(
                    capacity as int,
                ) == Some(e),
                Err(ShaperError::Inactive) => false,
            },
    {
        if read_fd < 0 || write_fd < 0 {
            return Err(ShaperError::InvalidDescriptor);
        }
        let tx_queue = match PepperRingBuffer::new(capacity) {
            Ok(queue) => queue,
            Err(e) => {
                return Err(ShaperError::Buffer(e));
            },
        };
        let rx_queue = match PepperRingBuffer::new(capacity) {
            Ok(queue) => queue,
            Err(e) => {
                return Err(ShaperError::Buffer(e));
            },
        };
        let now_ns: u64 = get_time_ns();
        PepperShaperHandle::with_buffers(
            id,
            read_fd,
            write_fd,
            mode,
            tx_queue,
            rx_queue,
            params,
            now_ns,
        )
    }

    /// Creates an active session over two buffers that the caller made, with
    /// both pacers starting at `now_ns`. Fails exactly where an endpoint
    /// identifier is negative.
    pub fn with_buffers(
        id: i64,
        read_fd: i32,
        write_fd: i32,
        mode: i32,
        tx_queue: PepperRingBuffer,
        rx_queue: PepperRingBuffer,
        params: PepperPacingParams,
        now_ns: u64,
    ) -> (r: Result<PepperShaperHandle, ShaperError>)
        requires
            tx_queue.wf(),
            rx_queue.wf(),
        ensures
            r is Ok <==> endpoints_valid(read_fd, write_fd),
            match r {
                Ok(handle) => handle.wf() && handle@ == ShaperView::fresh(
                    id,
                    read_fd,
                    write_fd,
                    mode,
                    tx_queue@,
                    rx_queue@,
                    params,
                    now_ns,
                ),
                Err(e) => e == ShaperError::InvalidDescriptor,
            },
    {
        if read_fd < 0 || write_fd < 0 {
            return Err(ShaperError::InvalidDescriptor);
        }
        let tx_pacing = PepperPacingState::starting_at(&params, now_ns);
        let rx_pacing = PepperPacingState::starting_at(&params, now_ns);
        Ok(
            PepperShaperHandle {
                id,
                read_fd,
                write_fd,
                mode,
                active: true,
                tx_queue,
                rx_queue,
                tx_pacing,
                rx_pacing,
                pacing_params: params,
            },
        )
    }

    /// The identity of the session.
    pub fn id(&self) -> (id: i64)
        ensures
            id == self@.id,
    {
        self.id
    }

    /// The endpoint that is read from.
    pub fn read_fd(&self) -> (fd: i32)
        ensures
            fd == self@.read_fd,
    {
        self.read_fd
    }

    /// The endpoint that is written to.
    pub fn write_fd(&self) -> (fd: i32)
        ensures
            fd == self@.write_fd,
    {
        self.write_fd
    }

    /// The mode that the session was attached in.
    pub fn mode(&self) -> (mode: i32)
        ensures
            mode == self@.mode,
    {
        self.mode
    }

    /// Whether the session is still in use.
    pub fn is_active(&self) -> (active: bool)
        ensures
            active == self@.active,
    {
        self.active
    }

    /// The parameters that both pacers run under.
    pub fn params(&self) -> (params: PepperPacingParams)
        ensures
            params == self@.params,
    {
        self.pacing_params
    }

    /// The state of the pacer of a direction, as plain values.
    pub fn pacing_snapshot(&self, direction: Direction) -> (s: PacingSnapshot)
        ensures
            s == self@.pacing(direction),
    {
        match direction {
            Direction::Transmit => self.tx_pacing.snapshot(),
            Direction::Receive => self.rx_pacing.snapshot(),
        }
    }

    /// Occupied space, in bytes, of the buffer of a direction.
    pub fn used(&self, direction: Direction) -> (n: usize)
        requires
            self.wf(),
        ensures
            n == self@.queue(direction).used(),
    {
        match direction {
            Direction::Transmit => self.tx_queue.used(),
            Direction::Receive => self.rx_queue.used(),
        }
    }

    /// Free space, in bytes, of the buffer of a direction.
    pub fn available(&self, direction: Direction) -> (n: usize)
        requires
            self.wf(),
        ensures
            n == self@.queue(direction).free(),
    {
        match direction {
            Direction::Transmit => self.tx_queue.available(),
            Direction::Receive => self.rx_queue.available(),
        }
    }

    /// Marks the session as no longer in use. From then on no operation
    /// changes it.
    pub fn deactivate(&mut self)
        requires
            old(self).wf(),
        ensures
            final(self).wf(),
            final(self)@ == (ShaperView { active: false, ..old(self)@ }),
    {
        self.active = false;
    }

    /// Puts the session under new parameters from now on, by the system
    /// clock: both pacers start afresh, the buffers keep what they hold.
    /// Fails, and changes nothing, where the session is inactive.
    pub fn update_params(&mut self, params: PepperPacingParams) -> (r: Result<(), ShaperError>)
        requires
            old(self).wf(),
        ensures
            final(self).wf(),
            r is Ok <==> old(self)@.active,
            r is Err ==> r == Err::<(), ShaperError>(ShaperError::Inactive) && final(self)@ == old(
                self,
            )@,
            r is Ok ==> final(self)@ == old(self)@.with_params(
                params,
                final(self)@.tx_pacing.last_update_ns,
            ),
    {
        let now_ns: u64 = get_time_ns();
        self.update_params_at(params, now_ns)
    }

    /// Puts the session under new parameters from `now_ns` on: both pacers
    /// start afresh, the buffers keep what they hold. Fails, and changes
    /// nothing, where the session is inactive.
    pub fn update_params_at(&mut self, params: PepperPacingParams, now_ns: u64) -> (r: Result<
        (),
        ShaperError,
    >)
        requires
            old(self).wf(),
        ensures
            final(self).wf(),
            r is Ok <==> old(self)@.active,
            r is Err ==> r == Err::<(), ShaperError>(ShaperError::Inactive) && final(self)@ == old(
                self,
            )@,
            r is Ok ==> final(self)@ == old(self)@.with_params(params, now_ns),
    {
        if !self.active {
            return Err(ShaperError::Inactive);
        }
        self.pacing_params = params;
        self.tx_pacing = PepperPacingState::starting_at(&params, now_ns);
        self.rx_pacing = PepperPacingState::starting_at(&params, now_ns);
        Ok(())
    }

    /// Appends bytes to the buffer of a direction, as many as fit, and
    /// returns how many were taken. Fails, and changes nothing, where the
    /// session is inactive; a full buffer is no failure.
    pub fn enqueue(&mut self, direction: Direction, bytes: &[u8]) -> (r: Result<usize, ShaperError>)
        requires
            old(self).wf(),
        ensures
            final(self).wf(),
            r is Ok <==> old(self)@.active,
            r is Err ==> r == Err::<usize, ShaperError>(ShaperError::Inactive) && final(self)@
                == old(self)@,
            r matches Ok(n) ==> {
                &&& n == old(self)@.queue(direction).accepts(bytes@.len())
                &&& final(self)@ == old(self)@.with_queue(
                    direction,
                    old(self)@.queue(direction).enqueue(bytes@),
                )
            },
    {
        if !self.active {
            return Err(ShaperError::Inactive);
        }
        let n: usize = match direction {
            Direction::Transmit => self.tx_queue.enqueue(bytes),
            Direction::Receive => self.rx_queue.enqueue(bytes),
        };
        Ok(n)
    }

    /// Moves the oldest bytes of the buffer of a direction to the front of
    /// `into`, as many as it has room for, and returns how many were moved.
    /// Fails, and changes nothing, where the session is inactive; an empty
    /// buffer is no failure.
    pub fn dequeue(&mut self, direction: Direction, into: &mut [u8]) -> (r: Result<
        usize,
        ShaperError,
    >)
        requires
            old(self).wf(),
        ensures
            final(self).wf(),
            final(into)@.len() == old(into)@.len(),
            r is Ok <==> old(self)@.active,
            r is Err ==> r == Err::<usize, ShaperError>(ShaperError::Inactive) && final(self)@
                == old(self)@ && final(into)@ == old(into)@,
            r matches Ok(n) ==> {
                &&& n == old(self)@.queue(direction).yields(old(into)@.len())
                &&& final(self)@ == old(self)@.with_queue(
                    direction,
                    old(self)@.queue(direction).dequeue(old(into)@.len()),
                )
                &&& final(into)@.subrange(0, n as int) == old(self)@.queue(direction).output(
                    old(into)@.len(),
                )
                &&& final(into)@.subrange(n as int, old(into)@.len() as int) == old(
                    into,
                )@.subrange(n as int, old(into)@.len() as int)
            },
    {
        if !self.active {
            return Err(ShaperError::Inactive);
        }
        let n: usize = match direction {
            Direction::Transmit => self.tx_queue.dequeue(into),
            Direction::Receive => self.rx_queue.dequeue(into),
        };
        Ok(n)
    }

    /// Asks the pacer of a direction whether `packet_size` bytes may be sent
    /// at `now_ns`. Fails, and changes nothing, where the session is
    /// inactive.
    pub fn can_send(&mut self, direction: Direction, packet_size: usize, now_ns: u64) -> (r: Result<
        bool,
        ShaperError,
    >)
        requires
            old(self).wf(),
        ensures
            final(self).wf(),
            r is Ok <==> old(self)@.active,
            r is Err ==> r == Err::<bool, ShaperError>(ShaperError::Inactive) && final(self)@
                == old(self)@,
            r matches Ok(ok) ==> {
                &&& ok == may_send(
                    old(self)@.pacing(direction),
                    old(self)@.params,
                    packet_size as nat,
                    now_ns,
                )
                &&& final(self)@ == old(self)@.with_pacing(
                    direction,
                    after_check(old(self)@.pacing(direction), old(self)@.params, now_ns),
                )
            },
    {
        if !self.active {
            return Err(ShaperError::Inactive);
        }
        let ok: bool = match direction {
            Direction::Transmit => can_send(
                &mut self.tx_pacing,
                &self.pacing_params,
                packet_size,
                now_ns,
            ),
            Direction::Receive => can_send(
                &mut self.rx_pacing,
                &self.pacing_params,
                packet_size,
                now_ns,
            ),
        };
        Ok(ok)
    }

    /// Tells the pacer of a direction that `packet_size` bytes were sent at
    /// `now_ns`. Fails, and changes nothing, where the session is inactive.
    pub fn commit_send(&mut self, direction: Direction, packet_size: usize, now_ns: u64) -> (r:
        Result<(), ShaperError>)
        requires
            old(self).wf(),
        ensures
            final(self).wf(),
            r is Ok <==> old(self)@.active,
            r is Err ==> r == Err::<(), ShaperError>(ShaperError::Inactive) && final(self)@ == old(
                self,
            )@,
            r is Ok ==> final(self)@ == old(self)@.with_pacing(
                direction,
                after_send(
                    old(self)@.pacing(direction),
                    old(self)@.params,
                    packet_size as nat,
                    now_ns,
                ),
            ),
    {
        if !self.active {
            return Err(ShaperError::Inactive);
        }
        match direction {
            Direction::Transmit => update_after_send(
                &mut self.tx_pacing,
                &self.pacing_params,
                packet_size,
                now_ns,
            ),
            Direction::Receive => update_after_send(
                &mut self.rx_pacing,
                &self.pacing_params,
                packet_size,
                now_ns,
            ),
        }
        Ok(())
    }

    /// Gives the pacer of a direction new loss-rate (parts per million) and
    /// round-trip (nanoseconds) estimates. Fails, and changes nothing, where
    /// the session is inactive.
    pub fn report_metrics(&mut self, direction: Direction, loss_rate_ppm: u32, rtt_ns: u64) -> (r:
        Result<(), ShaperError>)
        requires
            old(self).wf(),
        ensures
            final(self).wf(),
            r is Ok <==> old(self)@.active,
            r is Err ==> r == Err::<(), ShaperError>(ShaperError::Inactive) && final(self)@ == old(
                self,
            )@,
            r is Ok ==> final(self)@ == old(self)@.with_pacing(
                direction,
                after_metrics(old(self)@.pacing(direction), loss_rate_ppm, rtt_ns),
            ),
    {
        if !self.active {
            return Err(ShaperError::Inactive);
        }
        match direction {
            Direction::Transmit => update_metrics(&mut self.tx_pacing, loss_rate_ppm, rtt_ns),
            Direction::Receive => update_metrics(&mut self.rx_pacing, loss_rate_ppm, rtt_ns),
        }
        Ok(())
    }
}

} // verus!
