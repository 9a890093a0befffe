//! Readiness wrappers for generic raw handles, the builders that bind a
//! handle to a backend, and the single-use awaitable adapters.
//!
//! A [`FdBuilder`] takes a raw, non-blocking handle and registers it with a
//! backend, yielding a readiness wrapper. Two wrapper kinds exist, one per
//! readiness primitive: [`RetryLoopFd`] drives the level-triggered retry
//! loop, [`SingleShotFd`] drives the guarded single-shot. Both satisfy the
//! one [`AsyncReadyFd`] contract, so code generic over the trait need not
//! know which backend drives it.
//!
//! `read_with` and `write_with` wrap one engine run as a single-use
//! awaitable ([`ReadWithFuture`], [`WriteWithFuture`]): it resolves at most
//! once, and cancelling it before resolution releases the backend's wakeup
//! interest.

use vstd::prelude::*;
use crate::backend::{Backend, BuildError, read_interest_set, write_interest_set};
use crate::engine::{
    engine_a,
    engine_b,
    poll_retry,
    poll_single_shot,
    scripts_adequate,
    EnginePoll,
    OpScript,
    ReadyScript,
};
use crate::{AsyncIoBuilder, TokioBuilder};

verus! {

/// An OS-level descriptor already set to non-blocking mode.
#[derive(Clone, Copy, PartialEq, Eq, Structural, Debug)]
pub struct RawHandle {
    pub fd: u64,
}

/// A backend-registered readiness wrapper around one raw handle.
///
/// `poll_read_with` and `poll_write_with` run the wrapper's engine strategy
/// for one scheduler poll: the operation outcomes come from `ops`, the
/// readiness answers from `ready`, and the backend's wakeup interest for
/// the wrapper's slot is armed exactly when the poll suspends. The spec
/// functions `poll_pre` and `poll_step` pin down, per wrapper kind, what a
/// poll needs and what it does; both strategies absorb every would-block
/// outcome, so no resolution ever shows one.
pub trait AsyncReadyFd: Sized {
    /// The backend registration slot this wrapper owns.
    spec fn reg(&self) -> int;

    /// Identity of the backend the wrapper is registered with.
    spec fn backend_id(&self) -> u64;

    /// The raw handle the wrapper owns.
    spec fn raw(&self) -> RawHandle;

    /// What this wrapper's engine strategy needs of the scripts.
    spec fn poll_pre(&self, ops: OpScript, ready: ReadyScript) -> bool;

    /// The poll outcome and the script positions after one poll.
    spec fn poll_step(&self, ops: OpScript, ready: ReadyScript) -> (EnginePoll<u64, u64>, int, int);

    /// The registration slot, as an index.
    fn reg_slot(&self) -> (i: usize)
        ensures
            i as int == self.reg(),
    ;

    /// One scheduler poll of a read-direction operation.
    fn poll_read_with(&self, backend: &mut Backend, ops: &mut OpScript, ready: &mut ReadyScript) -> (r: EnginePoll<u64, u64>)
        requires
            old(backend).wf(),
            old(backend).is_registered(self.reg()),
            old(ops).wf(),
            old(ready).wf(),
            self.poll_pre(*old(ops), *old(ready)),
        ensures
            final(backend).wf(),
            final(ops).wf(),
            final(ready).wf(),
            final(ops).outcomes@ == old(ops).outcomes@,
            final(ready).events@ == old(ready).events@,
            ({
                let (res, ni, nj) = self.poll_step(*old(ops), *old(ready));
                r == res && final(ops).next == ni && final(ready).next == nj
            }),
            read_interest_set(*old(backend), *final(backend), self.reg(), r is Suspended),
    ;

    /// One scheduler poll of a write-direction operation.
    fn poll_write_with(&self, backend: &mut Backend, ops: &mut OpScript, ready: &mut ReadyScript) -> (r: EnginePoll<u64, u64>)
        requires
            old(backend).wf(),
            old(backend).is_registered(self.reg()),
            old(ops).wf(),
            old(ready).wf(),
            self.poll_pre(*old(ops), *old(ready)),
        ensures
            final(backend).wf(),
            final(ops).wf(),
            final(ready).wf(),
            final(ops).outcomes@ == old(ops).outcomes@,
            final(ready).events@ == old(ready).events@,
            ({
                let (res, ni, nj) = self.poll_step(*old(ops), *old(ready));
                r == res && final(ops).next == ni && final(ready).next == nj
            }),
            write_interest_set(*old(backend), *final(backend), self.reg(), r is Suspended),
    ;

    /// Bind an operation to this wrapper as a single-use read-direction
    /// awaitable.
    fn read_with(&self, ops: OpScript) -> (fut: ReadWithFuture)
        ensures
            fut.ops == ops,
            !fut.resolved,
    {
        ReadWithFuture { ops, resolved: false }
    }

    /// Bind an operation to this wrapper as a single-use write-direction
    /// awaitable.
    fn write_with(&self, ops: OpScript) -> (fut: WriteWithFuture)
        ensures
            fut.ops == ops,
            !fut.resolved,
    {
        WriteWithFuture { ops, resolved: false }
    }

    /// Destroy the wrapper: its registration dies with it, with both
    /// wakeup interests disarmed, so a wrapper never outlives its backend
    /// registration.
    fn release(self, backend: &mut Backend)
        requires
            old(backend).wf(),
            0 <= self.reg() < old(backend).slots(),
        ensures
            final(backend).wf(),
            final(backend).id == old(backend).id,
            final(backend).capacity == old(backend).capacity,
            final(backend).registered@ == old(backend).registered@.update(self.reg(), false),
            final(backend).read_interest@ == old(backend).read_interest@.update(self.reg(), false),
            final(backend).write_interest@ == old(backend).write_interest@.update(
                self.reg(),
                false,
            ),
    {
        backend.deregister(self.reg_slot());
    }
}

/// Builder contract: bind a raw handle to a backend registration.
///
/// Registration is fallible; on failure the raw handle is handed back to
/// the caller beside the error, and the backend is untouched — the handle
/// is neither leaked nor half-registered. The two builder variants satisfy
/// this identical contract.
pub trait FdBuilder {
    type Target: AsyncReadyFd;

    fn build_fd(&self, backend: &mut Backend, raw: RawHandle) -> (r: Result<
        Self::Target,
        (RawHandle, BuildError),
    >)
        requires
            old(backend).wf(),
        ensures
            final(backend).wf(),
            old(backend).live < old(backend).capacity ==> ({
                &&& r matches Ok(t) && t.reg() == old(backend).slots() && t.backend_id() == old(
                    backend,
                ).id && t.raw() == raw
                &&& final(backend).id == old(backend).id
                &&& final(backend).capacity == old(backend).capacity
                &&& final(backend).registered@ == old(backend).registered@.push(true)
                &&& final(backend).read_interest@ == old(backend).read_interest@.push(false)
                &&& final(backend).write_interest@ == old(backend).write_interest@.push(false)
                &&& final(backend).live == old(backend).live + 1
            }),
            old(backend).live >= old(backend).capacity ==> ({
                &&& r matches Err(p) && p.0 == raw && p.1 == BuildError::Exhausted
                &&& crate::backend::backend_unchanged(*old(backend), *final(backend))
            }),
    ;
}

/// Readiness wrapper of the backend whose primitive is "ask me again when
/// ready": each poll retries the operation in a level-triggered loop.
#[derive(Clone, Copy, Debug)]
pub struct RetryLoopFd {
    pub slot: usize,
    pub backend: u64,
    pub handle: RawHandle,
}

impl AsyncReadyFd for RetryLoopFd {
    open spec fn reg(&self) -> int {
        self.slot as int
    }

    open spec fn backend_id(&self) -> u64 {
        self.backend
    }

    open spec fn raw(&self) -> RawHandle {
        self.handle
    }

    open spec fn poll_pre(&self, ops: OpScript, ready: ReadyScript) -> bool {
        scripts_adequate(ops.outcomes@, ready.events@, ops.next as int, ready.next as int)
    }

    open spec fn poll_step(&self, ops: OpScript, ready: ReadyScript) -> (EnginePoll<u64, u64>, int, int) {
        engine_a(ops.outcomes@, ready.events@, ops.next as int, ready.next as int)
    }

    fn reg_slot(&self) -> (i: usize) {
        self.slot
    }

    fn poll_read_with(&self, backend: &mut Backend, ops: &mut OpScript, ready: &mut ReadyScript) -> (r: EnginePoll<u64, u64>) {
        let r = poll_retry(ops, ready);
        let suspended = match r {
            EnginePoll::Suspended => true,
            _ => false,
        };
        backend.set_read_interest(self.slot, suspended);
        r
    }

    fn poll_write_with(&self, backend: &mut Backend, ops: &mut OpScript, ready: &mut ReadyScript) -> (r: EnginePoll<u64, u64>) {
        let r = poll_retry(ops, ready);
        let suspended = match r {
            EnginePoll::Suspended => true,
            _ => false,
        };
        backend.set_write_interest(self.slot, suspended);
        r
    }
}

/// Readiness wrapper of the backend whose primitive is a per-poll guard:
/// each poll attempts the operation at most once, inside the guard's scope.
#[derive(Clone, Copy, Debug)]
pub struct SingleShotFd {
    pub slot: usize,
    pub backend: u64,
    pub handle: RawHandle,
}

impl AsyncReadyFd for SingleShotFd {
    open spec fn reg(&self) -> int {
        self.slot as int
    }

    open spec fn backend_id(&self) -> u64 {
        self.backend
    }

    open spec fn raw(&self) -> RawHandle {
        self.handle
    }

    open spec fn poll_pre(&self, ops: OpScript, ready: ReadyScript) -> bool {
        &&& ready.next < ready.events@.len()
        &&& (ready.events@[ready.next as int] is IsReady ==> ops.next < ops.outcomes@.len())
    }

    open spec fn poll_step(&self, ops: OpScript, ready: ReadyScript) -> (EnginePoll<u64, u64>, int, int) {
        engine_b(ops.outcomes@, ready.events@, ops.next as int, ready.next as int)
    }

    fn reg_slot(&self) -> (i: usize) {
        self.slot
    }

    fn poll_read_with(&self, backend: &mut Backend, ops: &mut OpScript, ready: &mut ReadyScript) -> (r: EnginePoll<u64, u64>) {
        let (r, _guard) = poll_single_shot(ops, ready);
        let suspended = match r {
            EnginePoll::Suspended => true,
            _ => false,
        };
        backend.set_read_interest(self.slot, suspended);
        r
    }

    fn poll_write_with(&self, backend: &mut Backend, ops: &mut OpScript, ready: &mut ReadyScript) -> (r: EnginePoll<u64, u64>) {
        let (r, _guard) = poll_single_shot(ops, ready);
        let suspended = match r {
            EnginePoll::Suspended => true,
            _ => false,
        };
        backend.set_write_interest(self.slot, suspended);
        r
    }
}

impl FdBuilder for AsyncIoBuilder {
    type Target = RetryLoopFd;

    fn build_fd(&self, backend: &mut Backend, raw: RawHandle) -> (r: Result<
        RetryLoopFd,
        (RawHandle, BuildError),
    >) {
        match backend.register() {
            Ok(slot) => Ok(RetryLoopFd { slot, backend: backend.id, handle: raw }),
            Err(e) => Err((raw, e)),
        }
    }
}

impl FdBuilder for TokioBuilder {
    type Target = SingleShotFd;

    fn build_fd(&self, backend: &mut Backend, raw: RawHandle) -> (r: Result<
        SingleShotFd,
        (RawHandle, BuildError),
    >) {
        match backend.register() {
            Ok(slot) => Ok(SingleShotFd { slot, backend: backend.id, handle: raw }),
            Err(e) => Err((raw, e)),
        }
    }
}

/// A single-use awaitable binding one read-direction operation to a
/// readiness wrapper. It resolves exactly once: a resolved adapter may not
/// be polled again, and an unresolved one can be cancelled, which releases
/// the backend's wakeup interest.
pub struct ReadWithFuture {
    /// The outcomes the bound operation closure will report.
    pub ops: OpScript,
    /// Whether the operation has already produced its terminal outcome.
    pub resolved: bool,
}

impl ReadWithFuture {
    /// One scheduler poll of the bound operation against wrapper `fd`.
    pub fn poll<A: AsyncReadyFd>(
        &mut self,
        fd: &A,
        backend: &mut Backend,
        ready: &mut ReadyScript,
    ) -> (r: EnginePoll<u64, u64>)
        requires
            !old(self).resolved,
            old(backend).wf(),
            old(backend).is_registered(fd.reg()),
            old(self).ops.wf(),
            old(ready).wf(),
            fd.poll_pre(old(self).ops, *old(ready)),
        ensures
            final(self).resolved == (r is Resolved),
            final(self).ops.wf(),
            final(ready).wf(),
            final(backend).wf(),
            final(self).ops.outcomes@ == old(self).ops.outcomes@,
            final(ready).events@ == old(ready).events@,
            ({
                let (res, ni, nj) = fd.poll_step(old(self).ops, *old(ready));
                r == res && final(self).ops.next == ni && final(ready).next == nj
            }),
            read_interest_set(*old(backend), *final(backend), fd.reg(), r is Suspended),
    {
        let r = fd.poll_read_with(backend, &mut self.ops, ready);
        self.resolved = match r {
            EnginePoll::Resolved(_) => true,
            _ => false,
        };
        r
    }

    /// Abandon the operation before (or instead of) resolution.
    ///
    /// The backend's read-direction wakeup interest for the wrapper is
    /// released, so no wakeup can be delivered for this operation
    /// afterwards, and no backend resource stays behind.
    pub fn cancel<A: AsyncReadyFd>(self, fd: &A, backend: &mut Backend)
        requires
            old(backend).wf(),
            old(backend).is_registered(fd.reg()),
        ensures
            final(backend).wf(),
            read_interest_set(*old(backend), *final(backend), fd.reg(), false),
    {
        backend.set_read_interest(fd.reg_slot(), false);
    }
}

/// A single-use awaitable binding one write-direction operation to a
/// readiness wrapper; the write-direction counterpart of
/// [`ReadWithFuture`].
pub struct WriteWithFuture {
    /// The outcomes the bound operation closure will report.
    pub ops: OpScript,
    /// Whether the operation has already produced its terminal outcome.
    pub resolved: bool,
}

impl WriteWithFuture {
    /// One scheduler poll of the bound operation against wrapper `fd`.
    pub fn poll<A: AsyncReadyFd>(
        &mut self,
        fd: &A,
        backend: &mut Backend,
        ready: &mut ReadyScript,
    ) -> (r: EnginePoll<u64, u64>)
        requires
            !old(self).resolved,
            old(backend).wf(),
            old(backend).is_registered(fd.reg()),
            old(self).ops.wf(),
            old(ready).wf(),
            fd.poll_pre(old(self).ops, *old(ready)),
        ensures
            final(self).resolved == (r is Resolved),
            final(self).ops.wf(),
            final(ready).wf(),
            final(backend).wf(),
            final(self).ops.outcomes@ == old(self).ops.outcomes@,
            final(ready).events@ == old(ready).events@,
            ({
                let (res, ni, nj) = fd.poll_step(old(self).ops, *old(ready));
                r == res && final(self).ops.next == ni && final(ready).next == nj
            }),
            write_interest_set(*old(backend), *final(backend), fd.reg(), r is Suspended),
    {
        let r = fd.poll_write_with(backend, &mut self.ops, ready);
        self.resolved = match r {
            EnginePoll::Resolved(_) => true,
            _ => false,
        };
        r
    }

    /// Abandon the operation before (or instead of) resolution; the
    /// backend's write-direction wakeup interest is released.
    pub fn cancel<A: AsyncReadyFd>(self, fd: &A, backend: &mut Backend)
        requires
            old(backend).wf(),
            old(backend).is_registered(fd.reg()),
        ensures
            final(backend).wf(),
            write_interest_set(*old(backend), *final(backend), fd.reg(), false),
    {
        backend.set_write_interest(fd.reg_slot(), false);
    }
}

} // verus!
