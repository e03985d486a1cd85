//! The table of live shaping sessions, by integer identity.
//!
//! The table itself knows nothing of locks: whoever shares it between
//! threads keeps it behind one, and never takes that lock on the path that
//! moves bytes.

use std::collections::HashMap;
use vstd::prelude::*;
use crate::pacing::get_time_ns;
use crate::pacing_model::PepperPacingParams;
use crate::queue::capacity_error;
use crate::queue::PepperRingBuffer;
use crate::queue::RingBufferError;
use crate::ring_model::RingView;
use crate::shaper::endpoints_valid;
use crate::shaper::PepperShaperHandle;
use crate::shaper::ShaperView;

verus! {

/// The capacity, in bytes, that a session's buffers get by default (64 KiB).
pub const DEFAULT_QUEUE_SIZE: usize = 65536;

/// The identity that the first session of a table gets.
pub const FIRST_HANDLE_ID: i64 = 1;

/// Why a session could not be attached.
#[derive(Clone, Copy, Debug, PartialEq, Eq, Structural)]
pub enum AttachError {
    /// The table was not initialized.
    NotInitialized,
    /// An endpoint identifier was negative.
    InvalidDescriptor,
    /// A ring buffer could not be created.
    Buffer(RingBufferError),
    /// Every identity has been given out.
    IdentitiesExhausted,
}

/// What a table of sessions stands for.
pub struct RegistryView {
    /// Whether the table accepts sessions.
    pub initialized: bool,
    /// The identity that the next session gets.
    pub next_id: i64,
    /// The live sessions, by identity.
    pub sessions: Map<i64, ShaperView>,
}

impl RegistryView {
    /// A table as it is before initialization.
    pub open spec fn empty() -> RegistryView {
        RegistryView { initialized: false, next_id: FIRST_HANDLE_ID, sessions: Map::empty() }
    }

    /// The invariant of a table: every session in it is active and
    /// well-formed, stands under its own identity, and has an identity that
    /// is positive and was given out already.
    pub open spec fn wf(self) -> bool {
        &&& self.next_id >= FIRST_HANDLE_ID
        &&& forall|id: i64| #[trigger]
            self.sessions.contains_key(id) ==> {
                &&& 0 < id < self.next_id
                &&& self.sessions[id].id == id
                &&& self.sessions[id].active
                &&& self.sessions[id].wf()
            }
    }

    /// The error that an attach with these arguments is refused with, if it
    /// is refused before anything is allocated. The checks are made in this
    /// order.
    pub open spec fn attach_error(
        self,
        read_fd: i32,
        write_fd: i32,
        capacity: int,
    ) -> Option<AttachError> {
        if !self.initialized {
            Some(AttachError::NotInitialized)
        } else if !endpoints_valid(read_fd, write_fd) {
            Some(AttachError::InvalidDescriptor)
        } else if self.next_id == i64::MAX {
            Some(AttachError::IdentitiesExhausted)
        } else {
            match capacity_error(capacity) {
                Some(e) => Some(AttachError::Buffer(e)),
                None => None,
            }
        }
    }

    /// The table after `session` was attached under the next identity.
    pub open spec fn attached(self, session: ShaperView) -> RegistryView {
        RegistryView {
            next_id: (self.next_id + 1) as i64,
            sessions: self.sessions.insert(self.next_id, session),
            ..self
        }
    }

    /// The table after the session `id` was detached.
    pub open spec fn detached(self, id: i64) -> RegistryView {
        RegistryView { sessions: self.sessions.remove(id), ..self }
    }

    /// The table after it was shut down: no session is left, identities
    /// start over, and it must be initialized again before the next attach.
    pub open spec fn closed(self) -> RegistryView {
        RegistryView::empty()
    }
}

/// A table of live shaping sessions.
pub struct ShaperRegistry {
    initialized: bool,
    next_handle_id: i64,
    handles: HashMap<i64, PepperShaperHandle>,
}

impl View for ShaperRegistry {
    type V = RegistryView;

    closed spec fn view(&self) -> RegistryView {
        RegistryView {
            initialized: self.initialized,
            next_id: self.next_handle_id,
            sessions: Map::new(
                |id: i64| self.handles@.contains_key(id),
                |id: i64| self.handles@[id]@,
            ),
        }
    }
}

impl ShaperRegistry {
    /// The storage of every session's buffers agrees with what they stand
    /// for.
    pub closed spec fn storage_ok(&self) -> bool {
        forall|id: i64| #[trigger]
            self.handles@.contains_key(id) ==> self.handles@[id].storage_ok()
    }

    /// The table is well-formed.
    pub open spec fn wf(&self) -> bool {
        self@.wf() && self.storage_ok()
    }

    /// Creates a table that holds no session and is not yet initialized.
    pub fn new() -> (registry: ShaperRegistry)
        ensures
            registry.wf(),
            registry@ == RegistryView::empty(),
    {
        let registry = ShaperRegistry {
            initialized: false,
            next_handle_id: FIRST_HANDLE_ID,
            handles: HashMap::new(),
        };
        assert(registry@.sessions =~= Map::empty());
        registry
    }

    /// Makes the table accept sessions, and says whether it did so already.
    pub fn init(&mut self) -> (already: bool)
        requires
            old(self).wf(),
        ensures
            final(self).wf(),
            already == old(self)@.initialized,
            final(self)@ == (RegistryView { initialized: true, ..old(self)@ }),
    {
        let already: bool = self.initialized;
        self.initialized = true;
        already
    }

    /// Whether the table accepts sessions.
    pub fn is_initialized(&self) -> (initialized: bool)
        ensures
            initialized == self@.initialized,
    {
        self.initialized
    }

    /// How many sessions are live.
    pub fn len(&self) -> (n: usize)
        ensures
            n == self@.sessions.dom().len(),
    {
        broadcast use vstd::std_specs::hash::group_hash_axioms;

        assert(self@.sessions.dom() =~= self.handles@.dom());
        self.handles.len()
    }

    /// Whether a session of this identity is live.
    pub fn contains(&self, id: i64) -> (found: bool)
        ensures
            found == self@.sessions.contains_key(id),
    {
        broadcast use vstd::std_specs::hash::group_hash_axioms;

        self.handles.contains_key(&id)
    }

    /// The live session of this identity, if there is one.
    pub fn get(&self, id: i64) -> (found: Option<&PepperShaperHandle>)
        requires
            self.wf(),
        ensures
            found is Some <==> self@.sessions.contains_key(id),
            found matches Some(handle) ==> handle.wf() && handle@ == self@.sessions[id],
    {
        broadcast use vstd::std_specs::hash::group_hash_axioms;

        let found = self.handles.get(&id);
        proof {
            if found is Some {
                assert(self.handles@.contains_key(id));
                assert(self@.sessions.contains_key(id));
            }
        }
        found
    }

    /// Attaches a session between two endpoints, with a buffer of `capacity`
    /// bytes for each direction and both pacers starting now, by the system
    /// clock, and returns its identity.
    ///
    /// Fails, and changes nothing, where the table is not initialized, an
    /// endpoint identifier is negative, the identities are used up, or the
    /// capacity is zero or above the maximum. Otherwise the only failure is
    /// that of the allocator.
    pub fn attach(
        &mut self,
        read_fd: i32,
        write_fd: i32,
        mode: i32,
        capacity: usize,
        params: PepperPacingParams,
    ) -> (r: Result<i64, AttachError>)
        requires
            old(self).wf(),
        ensures
            final(self).wf(),
            match r {
                Ok(id) => {
                    &&& old(self)@.attach_error(read_fd, write_fd, capacity as int) is None
                    &&& id == old(self)@.next_id
                    &&& final(self)@.sessions.contains_key(id)
                    &&& final(self)@ == old(self)@.attached(
                        ShaperView::fresh(
                            id,
                            read_fd,
                            write_fd,
                            mode,
                            RingView::empty(capacity as nat),
                            RingView::empty(capacity as nat),
                            params,
                            final(self)@.sessions[id].tx_pacing.last_update_ns,
                        ),
                    )
                },
                Err(AttachError::Buffer(RingBufferError::AllocationFailed)) => {
                    &&& old(self)@.attach_error(read_fd, write_fd, capacity as int) is None
                    &&& final(self)@ == old(self)@
                },
                Err(e) => {
                    &&& old(self)@.attach_error(read_fd, write_fd, capacity as int) == Some(e)
                    &&& final(self)@ == old(self)@
                },
            },
    {
        if !self.initialized {
            return Err(AttachError::NotInitialized);
        }
        if read_fd < 0 || write_fd < 0 {
            return Err(AttachError::InvalidDescriptor);
        }
        if self.next_handle_id == i64::MAX {
            return Err(AttachError::IdentitiesExhausted);
        }
        let tx_queue = match PepperRingBuffer::new(capacity) {
            Ok(queue) => queue,
            Err(e) => {
                return Err(AttachError::Buffer(e));
            },
        };
        let rx_queue = match PepperRingBuffer::new(capacity) {
            Ok(queue) => queue,
            Err(e) => {
                return Err(AttachError::Buffer(e));
            },
        };
        let now_ns: u64 = get_time_ns();
        self.attach_with(read_fd, write_fd, mode, tx_queue, rx_queue, params, now_ns)
    }

    /// Attaches a session over two buffers that the caller made, with both
    /// pacers starting at `now_ns`, and returns its identity.
    ///
    /// Fails, and changes nothing, exactly where the table is not
    /// initialized, an endpoint identifier is negative, or the identities
    /// are used up.
    pub fn attach_with(
        &mut self,
        read_fd: i32,
        write_fd: i32,
        mode: i32,
        tx_queue: PepperRingBuffer,
        rx_queue: PepperRingBuffer,
        params: PepperPacingParams,
        now_ns: u64,
    ) -> (r: Result<i64, AttachError>)
        requires
            old(self).wf(),
            tx_queue.wf(),
            rx_queue.wf(),
        ensures
            final(self).wf(),
            match r {
                Ok(id) => {
                    &&& old(self)@.attach_error(read_fd, write_fd, tx_queue@.capacity as int)
                        is None
                    &&& id == old(self)@.next_id
                    &&& final(self)@ == old(self)@.attached(
                        ShaperView::fresh(
                            id,
                            read_fd,
                            write_fd,
                            mode,
                            tx_queue@,
                            rx_queue@,
                            params,
                            now_ns,
                        ),
                    )
                },
                Err(e) => {
                    &&& old(self)@.attach_error(read_fd, write_fd, tx_queue@.capacity as int)
                        == Some(e)
                    &&& final(self)@ == old(self)@
                },
            },
    {
        broadcast use vstd::std_specs::hash::group_hash_axioms;

        if !self.initialized {
            return Err(AttachError::NotInitialized);
        }
        if self.next_handle_id == i64::MAX {
            if read_fd < 0 || write_fd < 0 {
                return Err(AttachError::InvalidDescriptor);
            }
            return Err(AttachError::IdentitiesExhausted);
        }
        let id: i64 = self.next_handle_id;
        let handle = match PepperShaperHandle::with_buffers(
            id,
            read_fd,
            write_fd,
            mode,
            tx_queue,
            rx_queue,
            params,
            now_ns,
        ) {
            Ok(handle) => handle,
            Err(_) => {
                return Err(AttachError::InvalidDescriptor);
            },
        };
        let ghost session = handle@;
        self.handles.insert(id, handle);
        self.next_handle_id = id + 1;
        assert(self@.sessions =~= old(self)@.sessions.insert(id, session));
        Ok(id)
    }

    /// Detaches the session of this identity, and says whether there was
    /// one. The other sessions are left as they are.
    pub fn detach(&mut self, id: i64) -> (found: bool)
        requires
            old(self).wf(),
        ensures
            final(self).wf(),
            found == old(self)@.sessions.contains_key(id),
            final(self)@ == old(self)@.detached(id),
            !found ==> final(self)@ == old(self)@,
    {
        broadcast use vstd::std_specs::hash::group_hash_axioms;

        if id <= 0 {
            assert(self@.sessions.remove(id) =~= self@.sessions);
            return false;
        }
        proof {
            if self.handles@.contains_key(id) {
                assert(self@.sessions.contains_key(id));
            }
        }
        let found: bool = match self.handles.remove(&id) {
            Some(mut handle) => {
                handle.deactivate();
                true
            },
            None => false,
        };
        assert(self@.sessions =~= old(self)@.sessions.remove(id));
        proof {
            if !found {
                assert(old(self)@.sessions.remove(id) =~= old(self)@.sessions);
            }
        }
        found
    }

    /// Puts the session of this identity under new parameters from now on,
    /// by the system clock, and says whether there was such a session. Its
    /// pacers start afresh; its buffers keep what they hold.
    pub fn update_params(&mut self, id: i64, params: PepperPacingParams) -> (found: bool)
        requires
            old(self).wf(),
        ensures
            final(self).wf(),
            found == old(self)@.sessions.contains_key(id),
            !found ==> final(self)@ == old(self)@,
            found ==> final(self)@.sessions.contains_key(id) && final(self)@ == (RegistryView {
                sessions: old(self)@.sessions.insert(
                    id,
                    old(self)@.sessions[id].with_params(
                        params,
                        final(self)@.sessions[id].tx_pacing.last_update_ns,
                    ),
                ),
                ..old(self)@
            }),
    {
        let now_ns: u64 = get_time_ns();
        self.update_params_at(id, params, now_ns)
    }

    /// Puts the session of this identity under new parameters from `now_ns`
    /// on, and says whether there was such a session. Its pacers start
    /// afresh; its buffers keep what they hold.
    pub fn update_params_at(&mut self, id: i64, params: PepperPacingParams, now_ns: u64) -> (found:
        bool)
        requires
            old(self).wf(),
        ensures
            final(self).wf(),
            found == old(self)@.sessions.contains_key(id),
            !found ==> final(self)@ == old(self)@,
            found ==> final(self)@ == (RegistryView {
                sessions: old(self)@.sessions.insert(
                    id,
                    old(self)@.sessions[id].with_params(params, now_ns),
                ),
                ..old(self)@
            }),
    {
        broadcast use vstd::std_specs::hash::group_hash_axioms;

        if id <= 0 {
            return false;
        }
        proof {
            if self.handles@.contains_key(id) {
                assert(self@.sessions.contains_key(id));
            }
        }
        match self.handles.remove(&id) {
            Some(mut handle) => {
                let ghost before = handle@;
                let _ = handle.update_params_at(params, now_ns);
                self.handles.insert(id, handle);
                assert(self@.sessions =~= old(self)@.sessions.insert(
                    id,
                    before.with_params(params, now_ns),
                ));
                true
            },
            None => {
                assert(self@.sessions =~= old(self)@.sessions);
                false
            },
        }
    }

    /// Shuts the table down: where it is initialized, every session is
    /// dropped, identities start over, and the table must be initialized
    /// again. A table that is not initialized is left as it is.
    pub fn shutdown(&mut self)
        requires
            old(self).wf(),
        ensures
            final(self).wf(),
            final(self)@ == if old(self)@.initialized {
                old(self)@.closed()
            } else {
                old(self)@
            },
    {
        if !self.initialized {
            return ;
        }
        self.unload();
    }

    /// Drops every session, whether or not the table is initialized, and
    /// leaves the table as it was at creation.
    pub fn unload(&mut self)
        ensures
            final(self).wf(),
            final(self)@ == RegistryView::empty(),
    {
        self.handles.clear();
        self.next_handle_id = FIRST_HANDLE_ID;
        self.initialized = false;
        assert(self@.sessions =~= Map::empty());
    }
}

} // verus!
