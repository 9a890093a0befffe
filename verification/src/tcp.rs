//! Listener and stream wrappers: accepting connections, and the builder
//! contract for connected sockets.
//!
//! An accept is one retry-poll engine run whose operation is "attempt a
//! non-blocking accept"; a successful attempt yields a raw handle that is
//! immediately registered with the listener's own backend before it is
//! surfaced, so an accepted connection is never exposed half-constructed.
//! A failure of that secondary registration is the accepter's terminal
//! error, not silently dropped.

use vstd::prelude::*;
use crate::backend::{Backend, BuildError, backend_unchanged, read_interest_set};
use crate::engine::{engine_a, poll_retry, scripts_adequate, EnginePoll, OpScript, ReadyScript, Resolution};
use crate::fd::RawHandle;
use crate::{AsyncIoBuilder, TokioBuilder};

verus! {

/// A backend-registered wrapper around one connected stream socket.
///
/// Its consumption operations (the two read shapes, plain and vectored
/// writes, flush and half-close) live in [`crate::stream`].
#[derive(Clone, Copy, PartialEq, Eq, Structural, Debug)]
pub struct StreamHandle {
    /// Backend registration slot owned by this stream.
    pub slot: usize,
    /// Identity of the backend the stream is registered with.
    pub backend: u64,
    /// The raw connected socket.
    pub handle: RawHandle,
}

/// A backend-registered wrapper around one listening socket.
#[derive(Clone, Copy, PartialEq, Eq, Structural, Debug)]
pub struct ListenerHandle {
    /// Backend registration slot owned by this listener.
    pub slot: usize,
    /// Identity of the backend the listener is registered with.
    pub backend: u64,
    /// The raw listening socket.
    pub handle: RawHandle,
}

impl StreamHandle {
    /// Destroy the stream wrapper: its registration dies with it, with
    /// both wakeup interests disarmed. An accepted stream's lifetime is
    /// independent of the listener that produced it.
    pub fn release(self, backend: &mut Backend)
        requires
            old(backend).wf(),
            self.slot < old(backend).slots(),
        ensures
            final(backend).wf(),
            final(backend).id == old(backend).id,
            final(backend).capacity == old(backend).capacity,
            final(backend).registered@ == old(backend).registered@.update(self.slot as int, false),
            final(backend).read_interest@ == old(backend).read_interest@.update(
                self.slot as int,
                false,
            ),
            final(backend).write_interest@ == old(backend).write_interest@.update(
                self.slot as int,
                false,
            ),
    {
        backend.deregister(self.slot);
    }
}

impl ListenerHandle {
    /// Destroy the listener wrapper: its registration dies with it, with
    /// both wakeup interests disarmed.
    pub fn release(self, backend: &mut Backend)
        requires
            old(backend).wf(),
            self.slot < old(backend).slots(),
        ensures
            final(backend).wf(),
            final(backend).id == old(backend).id,
            final(backend).capacity == old(backend).capacity,
            final(backend).registered@ == old(backend).registered@.update(self.slot as int, false),
            final(backend).read_interest@ == old(backend).read_interest@.update(
                self.slot as int,
                false,
            ),
            final(backend).write_interest@ == old(backend).write_interest@.update(
                self.slot as int,
                false,
            ),
    {
        backend.deregister(self.slot);
    }
}

/// Why an accept resolved without a connection.
#[derive(Clone, Copy, PartialEq, Eq, Structural, Debug)]
pub enum AcceptError {
    /// The non-blocking accept itself, or the readiness query, failed
    /// terminally; the code is propagated verbatim.
    Op(u64),
    /// The accepted handle could not be registered with the backend.
    Build(BuildError),
}

/// What one scheduler poll of an accept produces.
#[derive(Clone, Copy, PartialEq, Eq, Structural, Debug)]
pub enum AcceptPoll {
    /// A connection arrived and its stream is already registered with the
    /// listener's backend.
    Accepted(StreamHandle),
    /// The accept resolved with an error.
    Failed(AcceptError),
    /// Still pending; a read-direction wakeup has been armed.
    Suspended,
}

/// Builder contract for connected sockets: bind an accepted or connected
/// raw socket, or a listening one, to a backend registration.
///
/// As with [`crate::fd::FdBuilder`], registration is fallible and on
/// failure the raw handle is handed back beside the error with the backend
/// untouched. The two builder variants satisfy this identical contract.
pub trait TcpBuilder {
    fn build_stream(&self, backend: &mut Backend, raw: RawHandle) -> (r: Result<
        StreamHandle,
        (RawHandle, BuildError),
    >)
        requires
            old(backend).wf(),
        ensures
            final(backend).wf(),
            old(backend).live < old(backend).capacity ==> ({
                &&& r matches Ok(s) && s.slot == old(backend).slots() && s.backend == old(
                    backend,
                ).id && s.handle == raw
                &&& final(backend).id == old(backend).id
                &&& final(backend).capacity == old(backend).capacity
                &&& final(backend).registered@ == old(backend).registered@.push(true)
                &&& final(backend).read_interest@ == old(backend).read_interest@.push(false)
                &&& final(backend).write_interest@ == old(backend).write_interest@.push(false)
                &&& final(backend).live == old(backend).live + 1
            }),
            old(backend).live >= old(backend).capacity ==> ({
                &&& r matches Err(p) && p.0 == raw && p.1 == BuildError::Exhausted
                &&& backend_unchanged(*old(backend), *final(backend))
            }),
    ;

    fn build_listener(&self, backend: &mut Backend, raw: RawHandle) -> (r: Result<
        ListenerHandle,
        (RawHandle, BuildError),
    >)
        requires
            old(backend).wf(),
        ensures
            final(backend).wf(),
            old(backend).live < old(backend).capacity ==> ({
                &&& r matches Ok(l) && l.slot == old(backend).slots() && l.backend == old(
                    backend,
                ).id && l.handle == raw
                &&& final(backend).id == old(backend).id
                &&& final(backend).capacity == old(backend).capacity
                &&& final(backend).registered@ == old(backend).registered@.push(true)
                &&& final(backend).read_interest@ == old(backend).read_interest@.push(false)
                &&& final(backend).write_interest@ == old(backend).write_interest@.push(false)
                &&& final(backend).live == old(backend).live + 1
            }),
            old(backend).live >= old(backend).capacity ==> ({
                &&& r matches Err(p) && p.0 == raw && p.1 == BuildError::Exhausted
                &&& backend_unchanged(*old(backend), *final(backend))
            }),
    ;
}

impl TcpBuilder for AsyncIoBuilder {
    fn build_stream(&self, backend: &mut Backend, raw: RawHandle) -> (r: Result<
        StreamHandle,
        (RawHandle, BuildError),
    >) {
        match backend.register() {
            Ok(slot) => Ok(StreamHandle { slot, backend: backend.id, handle: raw }),
            Err(e) => Err((raw, e)),
        }
    }

    fn build_listener(&self, backend: &mut Backend, raw: RawHandle) -> (r: Result<
        ListenerHandle,
        (RawHandle, BuildError),
    >) {
        match backend.register() {
            Ok(slot) => Ok(ListenerHandle { slot, backend: backend.id, handle: raw }),
            Err(e) => Err((raw, e)),
        }
    }
}

impl TcpBuilder for TokioBuilder {
    fn build_stream(&self, backend: &mut Backend, raw: RawHandle) -> (r: Result<
        StreamHandle,
        (RawHandle, BuildError),
    >) {
        match backend.register() {
            Ok(slot) => Ok(StreamHandle { slot, backend: backend.id, handle: raw }),
            Err(e) => Err((raw, e)),
        }
    }

    fn build_listener(&self, backend: &mut Backend, raw: RawHandle) -> (r: Result<
        ListenerHandle,
        (RawHandle, BuildError),
    >) {
        match backend.register() {
            Ok(slot) => Ok(ListenerHandle { slot, backend: backend.id, handle: raw }),
            Err(e) => Err((raw, e)),
        }
    }
}

/// The accepter contract: one scheduler poll of "accept one connection".
///
/// The accept attempts come from `accepts` (a decisive attempt's value is
/// the raw handle of the new connection), the readiness answers from
/// `ready`. A successful attempt's handle is registered with the
/// listener's backend before the stream is surfaced; a suspension arms the
/// listener's read-direction wakeup interest.
pub trait TcpAccepter: Sized {
    /// The backend registration slot this listener owns.
    spec fn reg(&self) -> int;

    /// Identity of the backend the listener is registered with.
    spec fn backend_id(&self) -> u64;

    /// The registration slot, as an index.
    fn reg_slot(&self) -> (i: usize)
        ensures
            i as int == self.reg(),
    ;

    fn poll_accept(&self, backend: &mut Backend, accepts: &mut OpScript, ready: &mut ReadyScript) -> (r: AcceptPoll)
        requires
            old(backend).wf(),
            old(backend).id == self.backend_id(),
            old(backend).is_registered(self.reg()),
            old(accepts).wf(),
            old(ready).wf(),
            scripts_adequate(
                old(accepts).outcomes@,
                old(ready).events@,
                old(accepts).next as int,
                old(ready).next as int,
            ),
        ensures
            final(backend).wf(),
            final(accepts).wf(),
            final(ready).wf(),
            final(accepts).outcomes@ == old(accepts).outcomes@,
            final(ready).events@ == old(ready).events@,
            ({
                let (res, ni, nj) = engine_a(
                    old(accepts).outcomes@,
                    old(ready).events@,
                    old(accepts).next as int,
                    old(ready).next as int,
                );
                &&& final(accepts).next == ni
                &&& final(ready).next == nj
                &&& match res {
                    EnginePoll::Suspended => r == AcceptPoll::Suspended && read_interest_set(
                        *old(backend),
                        *final(backend),
                        self.reg(),
                        true,
                    ),
                    EnginePoll::Resolved(Resolution::Error(err)) => r == AcceptPoll::Failed(
                        AcceptError::Op(err),
                    ) && read_interest_set(*old(backend), *final(backend), self.reg(), false),
                    EnginePoll::Resolved(Resolution::Value(raw)) => {
                        let cleared = old(backend).read_interest@.update(self.reg(), false);
                        if old(backend).live < old(backend).capacity {
                            &&& r matches AcceptPoll::Accepted(s) && s.slot == old(
                                backend,
                            ).slots() && s.backend == old(backend).id && s.handle == (RawHandle {
                                fd: raw,
                            })
                            &&& final(backend).id == old(backend).id
                            &&& final(backend).capacity == old(backend).capacity
                            &&& final(backend).registered@ == old(backend).registered@.push(true)
                            &&& final(backend).read_interest@ == cleared.push(false)
                            &&& final(backend).write_interest@ == old(
                                backend,
                            ).write_interest@.push(false)
                            &&& final(backend).live == old(backend).live + 1
                        } else {
                            &&& r == AcceptPoll::Failed(AcceptError::Build(BuildError::Exhausted))
                            &&& read_interest_set(*old(backend), *final(backend), self.reg(), false)
                        }
                    },
                }
            }),
            r matches AcceptPoll::Accepted(s) ==> final(backend).is_registered(s.slot as int)
                && s.backend == self.backend_id(),
    ;

    /// Begin accepting one connection as a single-use awaitable.
    fn accept(&self) -> (fut: AcceptFuture)
        ensures
            !fut.resolved,
    {
        AcceptFuture { resolved: false }
    }
}

impl TcpAccepter for ListenerHandle {
    open spec fn reg(&self) -> int {
        self.slot as int
    }

    open spec fn backend_id(&self) -> u64 {
        self.backend
    }

    fn reg_slot(&self) -> (i: usize) {
        self.slot
    }

    fn poll_accept(&self, backend: &mut Backend, accepts: &mut OpScript, ready: &mut ReadyScript) -> (r: AcceptPoll) {
        let e = poll_retry(accepts, ready);
        match e {
            EnginePoll::Suspended => {
                backend.set_read_interest(self.slot, true);
                AcceptPoll::Suspended
            },
            EnginePoll::Resolved(Resolution::Error(err)) => {
                backend.set_read_interest(self.slot, false);
                AcceptPoll::Failed(AcceptError::Op(err))
            },
            EnginePoll::Resolved(Resolution::Value(raw)) => {
                backend.set_read_interest(self.slot, false);
                match backend.register() {
                    Ok(slot) => {
                        proof {
                            assert(backend.registered@[slot as int]);
                        }
                        AcceptPoll::Accepted(
                            StreamHandle {
                                slot,
                                backend: backend.id,
                                handle: RawHandle { fd: raw },
                            },
                        )
                    },
                    Err(e) => AcceptPoll::Failed(AcceptError::Build(e)),
                }
            },
        }
    }
}

/// A single-use awaitable for one accept. It resolves exactly once; an
/// unresolved accept can be cancelled, which releases the listener's
/// wakeup interest.
pub struct AcceptFuture {
    /// Whether the accept has already produced its terminal outcome.
    pub resolved: bool,
}

impl AcceptFuture {
    /// One scheduler poll of the accept against `listener`.
    pub fn poll<L: TcpAccepter>(
        &mut self,
        listener: &L,
        backend: &mut Backend,
        accepts: &mut OpScript,
        ready: &mut ReadyScript,
    ) -> (r: AcceptPoll)
        requires
            !old(self).resolved,
            old(backend).wf(),
            old(backend).id == listener.backend_id(),
            old(backend).is_registered(listener.reg()),
            old(accepts).wf(),
            old(ready).wf(),
            scripts_adequate(
                old(accepts).outcomes@,
                old(ready).events@,
                old(accepts).next as int,
                old(ready).next as int,
            ),
        ensures
            final(self).resolved == !(r is Suspended),
            final(backend).wf(),
            final(accepts).wf(),
            final(ready).wf(),
            final(accepts).outcomes@ == old(accepts).outcomes@,
            final(ready).events@ == old(ready).events@,
            ({
                let (res, ni, nj) = engine_a(
                    old(accepts).outcomes@,
                    old(ready).events@,
                    old(accepts).next as int,
                    old(ready).next as int,
                );
                &&& final(accepts).next == ni
                &&& final(ready).next == nj
                &&& match res {
                    EnginePoll::Suspended => r == AcceptPoll::Suspended && read_interest_set(
                        *old(backend),
                        *final(backend),
                        listener.reg(),
                        true,
                    ),
                    EnginePoll::Resolved(Resolution::Error(err)) => r == AcceptPoll::Failed(
                        AcceptError::Op(err),
                    ) && read_interest_set(*old(backend), *final(backend), listener.reg(), false),
                    EnginePoll::Resolved(Resolution::Value(raw)) => {
                        let cleared = old(backend).read_interest@.update(listener.reg(), false);
                        if old(backend).live < old(backend).capacity {
                            &&& r matches AcceptPoll::Accepted(s) && s.slot == old(
                                backend,
                            ).slots() && s.backend == old(backend).id && s.handle == (RawHandle {
                                fd: raw,
                            })
                            &&& final(backend).id == old(backend).id
                            &&& final(backend).capacity == old(backend).capacity
                            &&& final(backend).registered@ == old(backend).registered@.push(true)
                            &&& final(backend).read_interest@ == cleared.push(false)
                            &&& final(backend).write_interest@ == old(
                                backend,
                            ).write_interest@.push(false)
                            &&& final(backend).live == old(backend).live + 1
                        } else {
                            &&& r == AcceptPoll::Failed(AcceptError::Build(BuildError::Exhausted))
                            &&& read_interest_set(
                                *old(backend),
                                *final(backend),
                                listener.reg(),
                                false,
                            )
                        }
                    },
                }
            }),
            r matches AcceptPoll::Accepted(s) ==> final(backend).is_registered(s.slot as int)
                && s.backend == listener.backend_id(),
    {
        let r = listener.poll_accept(backend, accepts, ready);
        self.resolved = match r {
            AcceptPoll::Suspended => false,
            _ => true,
        };
        r
    }

    /// Abandon the accept before resolution; the listener's read-direction
    /// wakeup interest is released, so no wakeup can be delivered for it
    /// afterwards.
    pub fn cancel<L: TcpAccepter>(self, listener: &L, backend: &mut Backend)
        requires
            old(backend).wf(),
            old(backend).is_registered(listener.reg()),
        ensures
            final(backend).wf(),
            read_interest_set(*old(backend), *final(backend), listener.reg(), false),
    {
        backend.set_read_interest(listener.reg_slot(), false);
    }
}

} // verus!
