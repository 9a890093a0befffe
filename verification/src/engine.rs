//! The retry-poll engine: the algorithm that turns a synchronous
//! non-blocking operation into a suspend-and-resume operation.
//!
//! An operation closure reports one [`Attempt`] per invocation; a backend
//! readiness query reports one [`ReadyCheck`]. The engine consumes such
//! outcomes and decides, per scheduler poll, whether the operation resolves
//! now or suspends. Two strategies exist, matching the two kinds of
//! readiness primitive a backend may offer, and both absorb every
//! would-block outcome into a suspension: a would-block is never visible in
//! a resolution.
//!
//! The event types are generic in the success and error payloads, which
//! the engine never inspects: an unverified embedding classifies each real
//! outcome into an [`Attempt`] or [`ReadyCheck`] and takes its next action
//! from the per-event decisions [`retry_attempt`], [`retry_readiness`] and
//! [`guarded_attempt`].
//!
//! For whole-run verification the outcomes are scripted: an [`OpScript`]
//! holds the outcomes the closure will report, in order, and a
//! [`ReadyScript`] holds the answers the backend readiness query will
//! give. The scripts let every control decision of the engine be stated
//! and proved over whole runs ([`engine_a`], [`engine_b`]).

use vstd::prelude::*;

verus! {

/// One outcome of invoking the operation closure.
#[derive(Clone, Copy, PartialEq, Eq, Debug)]
pub enum Attempt<V, E> {
    /// The operation completed with a value.
    Done(V),
    /// The operation cannot complete right now and must be retried after a
    /// readiness notification.
    WouldBlock,
    /// The operation failed terminally with an error.
    Failed(E),
}

/// One answer of the backend's readiness query.
#[derive(Clone, Copy, PartialEq, Eq, Debug)]
pub enum ReadyCheck<E> {
    /// The handle is (believed) ready; the operation may be attempted.
    IsReady,
    /// Not ready; a wakeup has been armed and the task must suspend.
    NotReady,
    /// The readiness query itself failed with an error.
    CheckFailed(E),
}

/// A terminal outcome of one awaitable operation: a value or a
/// non-would-block error, propagated verbatim.
#[derive(Clone, Copy, PartialEq, Eq, Debug)]
pub enum Resolution<V, E> {
    Value(V),
    Error(E),
}

/// What one scheduler poll of the engine produces.
#[derive(Clone, Copy, PartialEq, Eq, Debug)]
pub enum EnginePoll<V, E> {
    /// The operation resolved; it must not be polled again.
    Resolved(Resolution<V, E>),
    /// Still pending; the scheduler will poll again after a wakeup.
    Suspended,
}

/// The resolution a decisive (non-would-block) attempt maps to; arbitrary
/// on a would-block, which never resolves.
pub open spec fn resolution_of<V, E>(a: Attempt<V, E>) -> Resolution<V, E> {
    match a {
        Attempt::Done(v) => Resolution::Value(v),
        Attempt::Failed(e) => Resolution::Error(e),
        Attempt::WouldBlock => arbitrary(),
    }
}

/// What the retry loop does with one attempt outcome.
#[derive(Clone, Copy, PartialEq, Eq, Debug)]
pub enum AttemptStep<V, E> {
    /// The outcome is terminal: resolve with it, verbatim.
    Resolve(Resolution<V, E>),
    /// The operation would block: consult the backend's readiness query.
    CheckReadiness,
}

/// What the retry loop does with one readiness answer.
#[derive(Clone, Copy, PartialEq, Eq, Debug)]
pub enum ReadinessStep<E> {
    /// Ready: attempt the operation again at once.
    RetryNow,
    /// Not ready: a wakeup is armed, suspend the task.
    SuspendTask,
    /// The query failed: resolve with its error, verbatim.
    FailNow(E),
}

/// Strategy A per-event decision: what one attempt outcome leads to. A
/// would-block is never resolved; everything else resolves verbatim.
pub fn retry_attempt<V, E>(a: Attempt<V, E>) -> (r: AttemptStep<V, E>)
    ensures
        a is WouldBlock ==> r == AttemptStep::<V, E>::CheckReadiness,
        !(a is WouldBlock) ==> r == AttemptStep::<V, E>::Resolve(resolution_of(a)),
{
    match a {
        Attempt::Done(v) => AttemptStep::Resolve(Resolution::Value(v)),
        Attempt::Failed(e) => AttemptStep::Resolve(Resolution::Error(e)),
        Attempt::WouldBlock => AttemptStep::CheckReadiness,
    }
}

/// Strategy A per-event decision: what one readiness answer leads to.
pub fn retry_readiness<E>(c: ReadyCheck<E>) -> (r: ReadinessStep<E>)
    ensures
        c is IsReady ==> r == ReadinessStep::<E>::RetryNow,
        c is NotReady ==> r == ReadinessStep::<E>::SuspendTask,
        (c matches ReadyCheck::CheckFailed(e) ==> r == ReadinessStep::FailNow(e)),
{
    match c {
        ReadyCheck::IsReady => ReadinessStep::RetryNow,
        ReadyCheck::NotReady => ReadinessStep::SuspendTask,
        ReadyCheck::CheckFailed(e) => ReadinessStep::FailNow(e),
    }
}

/// The outcomes an operation closure reports, in order. `next` is the
/// number already consumed.
pub struct OpScript {
    pub outcomes: Vec<Attempt<u64, u64>>,
    pub next: usize,
}

impl OpScript {
    pub open spec fn wf(&self) -> bool {
        self.next <= self.outcomes.len()
    }

    pub fn new(outcomes: Vec<Attempt<u64, u64>>) -> (s: OpScript)
        ensures
            s.wf(),
            s.outcomes@ == outcomes@,
            s.next == 0,
    {
        OpScript { outcomes, next: 0 }
    }
}

/// The answers the backend readiness query gives, in order. `next` is the
/// number already consumed.
pub struct ReadyScript {
    pub events: Vec<ReadyCheck<u64>>,
    pub next: usize,
}

impl ReadyScript {
    pub open spec fn wf(&self) -> bool {
        self.next <= self.events.len()
    }

    pub fn new(events: Vec<ReadyCheck<u64>>) -> (s: ReadyScript)
        ensures
            s.wf(),
            s.events@ == events@,
            s.next == 0,
    {
        ReadyScript { events, next: 0 }
    }
}

/// Do the scripts, from positions `i` and `j`, carry a retry-loop poll to
/// its end? They do when the walk that pairs each would-block with the
/// next readiness answer reaches a decisive attempt, a not-ready answer,
/// or a failed readiness query before either script runs out.
pub open spec fn scripts_adequate(
    ops: Seq<Attempt<u64, u64>>,
    ready: Seq<ReadyCheck<u64>>,
    i: int,
    j: int,
) -> bool
    decreases ops.len() - i,
{
    if i < 0 || i >= ops.len() {
        false
    } else {
        match ops[i] {
            Attempt::WouldBlock => {
                if j < 0 || j >= ready.len() {
                    false
                } else {
                    match ready[j] {
                        ReadyCheck::IsReady => scripts_adequate(ops, ready, i + 1, j + 1),
                        ReadyCheck::NotReady => true,
                        ReadyCheck::CheckFailed(_) => true,
                    }
                }
            },
            _ => true,
        }
    }
}

/// Strategy A, the level-triggered retry loop, as a mathematical function
/// of the two scripts and the positions in them. Returns the poll outcome
/// and the positions after the poll.
///
/// Each consumed would-block is paired with exactly one readiness answer;
/// the run ends at the first decisive attempt, at the first not-ready
/// answer (suspension), or at a failed readiness query.
pub open spec fn engine_a(
    ops: Seq<Attempt<u64, u64>>,
    ready: Seq<ReadyCheck<u64>>,
    i: int,
    j: int,
) -> (EnginePoll<u64, u64>, int, int)
    decreases ops.len() - i,
{
    if i < 0 || i >= ops.len() {
        (EnginePoll::Suspended, i, j)
    } else {
        match ops[i] {
            Attempt::Done(v) => (EnginePoll::Resolved(Resolution::Value(v)), i + 1, j),
            Attempt::Failed(e) => (EnginePoll::Resolved(Resolution::Error(e)), i + 1, j),
            Attempt::WouldBlock => {
                if j < 0 || j >= ready.len() {
                    (EnginePoll::Suspended, i + 1, j)
                } else {
                    match ready[j] {
                        ReadyCheck::IsReady => engine_a(ops, ready, i + 1, j + 1),
                        ReadyCheck::NotReady => (EnginePoll::Suspended, i + 1, j + 1),
                        ReadyCheck::CheckFailed(e) => (
                            EnginePoll::Resolved(Resolution::Error(e)),
                            i + 1,
                            j + 1,
                        ),
                    }
                }
            },
        }
    }
}

/// An operation closure that never reports would-block resolves on the
/// first attempt, with no suspension and no readiness query consumed.
pub proof fn lemma_immediate_resolution(
    ops: Seq<Attempt<u64, u64>>,
    ready: Seq<ReadyCheck<u64>>,
    i: int,
    j: int,
)
    requires
        0 <= i < ops.len(),
        !(ops[i] is WouldBlock),
    ensures
        engine_a(ops, ready, i, j) == (
            EnginePoll::<u64, u64>::Resolved(resolution_of(ops[i])),
            i + 1,
            j,
        ),
{
}

/// An operation closure that reports would-block exactly once and then
/// succeeds makes the engine suspend exactly once: the first poll consumes
/// the would-block and the not-ready answer and suspends; the poll after
/// the readiness notification resolves with the success value, consuming
/// nothing further from the readiness script.
pub proof fn lemma_single_suspension(
    ops: Seq<Attempt<u64, u64>>,
    ready: Seq<ReadyCheck<u64>>,
    i: int,
    j: int,
    v: u64,
)
    requires
        0 <= i,
        i + 1 < ops.len(),
        0 <= j < ready.len(),
        ops[i] is WouldBlock,
        ops[i + 1] == Attempt::<u64, u64>::Done(v),
        ready[j] is NotReady,
    ensures
        engine_a(ops, ready, i, j) == (EnginePoll::<u64, u64>::Suspended, i + 1, j + 1),
        engine_a(ops, ready, i + 1, j + 1) == (
            EnginePoll::<u64, u64>::Resolved(Resolution::Value(v)),
            i + 2,
            j + 1,
        ),
{
}

/// Strategy A executable engine: one scheduler poll. Repeatedly attempt
/// the operation; on a would-block, consult the readiness query and either
/// retry (ready), suspend (not ready), or resolve with the query's error.
/// Each event is taken through the per-event decisions [`retry_attempt`]
/// and [`retry_readiness`].
///
/// The scripts must be adequate for the poll: the run must end before
/// either script runs out ([`scripts_adequate`]).
pub fn poll_retry(ops: &mut OpScript, ready: &mut ReadyScript) -> (r: EnginePoll<u64, u64>)
    requires
        old(ops).wf(),
        old(ready).wf(),
        scripts_adequate(
            old(ops).outcomes@,
            old(ready).events@,
            old(ops).next as int,
            old(ready).next as int,
        ),
    ensures
        final(ops).wf(),
        final(ready).wf(),
        final(ops).outcomes@ == old(ops).outcomes@,
        final(ready).events@ == old(ready).events@,
        ({
            let (res, ni, nj) = engine_a(
                old(ops).outcomes@,
                old(ready).events@,
                old(ops).next as int,
                old(ready).next as int,
            );
            r == res && final(ops).next == ni && final(ready).next == nj
        }),
{
    let ghost o = ops.outcomes@;
    let ghost e = ready.events@;
    let ghost i0 = ops.next as int;
    let ghost j0 = ready.next as int;
    #[verifier::loop_isolation(false)]
    loop
        invariant
            ops.wf(),
            ready.wf(),
            ops.outcomes@ == o,
            ready.events@ == e,
            i0 <= ops.next,
            j0 <= ready.next,
            scripts_adequate(o, e, ops.next as int, ready.next as int),
            engine_a(o, e, ops.next as int, ready.next as int) == engine_a(o, e, i0, j0),
        decreases o.len() - ops.next,
    {
        let ghost p = ops.next as int;
        let ghost q = ready.next as int;
        let a = ops.outcomes[ops.next];
        ops.next = ops.next + 1;
        match retry_attempt(a) {
            AttemptStep::Resolve(res) => {
                proof {
                    assert(engine_a(o, e, p, q) == (
                        EnginePoll::<u64, u64>::Resolved(resolution_of(o[p])),
                        p + 1,
                        q,
                    ));
                }
                return EnginePoll::Resolved(res);
            },
            AttemptStep::CheckReadiness => {
                let c = ready.events[ready.next];
                ready.next = ready.next + 1;
                match retry_readiness(c) {
                    ReadinessStep::RetryNow => {
                        proof {
                            assert(engine_a(o, e, p, q) == engine_a(o, e, p + 1, q + 1));
                            assert(scripts_adequate(o, e, p + 1, q + 1));
                        }
                    },
                    ReadinessStep::SuspendTask => {
                        proof {
                            assert(engine_a(o, e, p, q) == (
                                EnginePoll::<u64, u64>::Suspended,
                                p + 1,
                                q + 1,
                            ));
                        }
                        return EnginePoll::Suspended;
                    },
                    ReadinessStep::FailNow(err) => {
                        proof {
                            assert(engine_a(o, e, p, q) == (
                                EnginePoll::<u64, u64>::Resolved(Resolution::Error(err)),
                                p + 1,
                                q + 1,
                            ));
                        }
                        return EnginePoll::Resolved(Resolution::Error(err));
                    },
                }
            },
        }
    }
}

/// A backend-issued readiness claim for one poll of the guarded
/// single-shot strategy. The claim is optimistic: the backend may report
/// ready when the handle is not. `cleared` records whether the engine told
/// the backend that the claim was wrong, which the backend needs in order
/// to re-arm its notification.
pub struct ReadyGuard {
    pub cleared: bool,
}

impl ReadyGuard {
    /// A fresh claim, not (yet) reported wrong.
    pub fn new() -> (g: ReadyGuard)
        ensures
            !g.cleared,
    {
        ReadyGuard { cleared: false }
    }

    /// Did the engine clear the backend's readiness claim?
    pub fn was_cleared(&self) -> (r: bool)
        ensures
            r == self.cleared,
    {
        self.cleared
    }
}

/// Strategy B inner step: invoke the operation exactly once inside the
/// scope of a readiness guard.
///
/// If the attempt would block, the guard is always told that the readiness
/// claim was wrong before the engine reports the suspension — omitting
/// that correction would let the backend keep a false readiness flag and
/// never re-arm its notification. Any other attempt resolves the engine
/// and releases the guard untouched.
pub fn guarded_attempt<V, E>(guard: &mut ReadyGuard, a: Attempt<V, E>) -> (r: EnginePoll<V, E>)
    requires
        !old(guard).cleared,
    ensures
        a is WouldBlock ==> final(guard).cleared && r == EnginePoll::<V, E>::Suspended,
        !(a is WouldBlock) ==> !final(guard).cleared && r == EnginePoll::<V, E>::Resolved(
            resolution_of(a),
        ),
{
    match a {
        Attempt::WouldBlock => {
            guard.cleared = true;
            EnginePoll::Suspended
        },
        Attempt::Done(v) => EnginePoll::Resolved(Resolution::Value(v)),
        Attempt::Failed(e) => EnginePoll::Resolved(Resolution::Error(e)),
    }
}

/// Strategy B, the guarded single-shot, as a mathematical function of the
/// scripts and positions: one readiness answer is consumed; only when it
/// grants readiness is exactly one attempt consumed.
pub open spec fn engine_b(
    ops: Seq<Attempt<u64, u64>>,
    ready: Seq<ReadyCheck<u64>>,
    i: int,
    j: int,
) -> (EnginePoll<u64, u64>, int, int) {
    if j < 0 || j >= ready.len() {
        (EnginePoll::Suspended, i, j)
    } else {
        match ready[j] {
            ReadyCheck::NotReady => (EnginePoll::Suspended, i, j + 1),
            ReadyCheck::CheckFailed(e) => (EnginePoll::Resolved(Resolution::Error(e)), i, j + 1),
            ReadyCheck::IsReady => {
                if i < 0 || i >= ops.len() {
                    (EnginePoll::Suspended, i, j + 1)
                } else {
                    match ops[i] {
                        Attempt::WouldBlock => (EnginePoll::Suspended, i + 1, j + 1),
                        a => (EnginePoll::Resolved(resolution_of(a)), i + 1, j + 1),
                    }
                }
            },
        }
    }
}

/// Under the guarded single-shot strategy too, an operation that reports
/// would-block exactly once and then succeeds suspends exactly once: the
/// poll that attempts it inside the first readiness grant suspends, and
/// the poll after the re-armed notification resolves with the success
/// value.
pub proof fn lemma_single_suspension_single_shot(
    ops: Seq<Attempt<u64, u64>>,
    ready: Seq<ReadyCheck<u64>>,
    i: int,
    j: int,
    v: u64,
)
    requires
        0 <= i,
        i + 1 < ops.len(),
        0 <= j,
        j + 1 < ready.len(),
        ops[i] is WouldBlock,
        ops[i + 1] == Attempt::<u64, u64>::Done(v),
        ready[j] is IsReady,
        ready[j + 1] is IsReady,
    ensures
        engine_b(ops, ready, i, j) == (EnginePoll::<u64, u64>::Suspended, i + 1, j + 1),
        engine_b(ops, ready, i + 1, j + 1) == (
            EnginePoll::<u64, u64>::Resolved(Resolution::Value(v)),
            i + 2,
            j + 2,
        ),
{
}

/// The two strategies produce identical externally observable behaviour:
/// on a readiness grant and a decisive attempt, the guarded single-shot
/// resolves with exactly the outcome the retry loop resolves with, and
/// neither ever surfaces a would-block.
pub proof fn lemma_strategies_consistent(
    ops: Seq<Attempt<u64, u64>>,
    ready: Seq<ReadyCheck<u64>>,
    i: int,
    j: int,
)
    requires
        0 <= i < ops.len(),
        0 <= j < ready.len(),
        !(ops[i] is WouldBlock),
        ready[j] is IsReady,
    ensures
        engine_b(ops, ready, i, j).0 == engine_a(ops, ready, i, j).0,
        engine_a(ops, ready, i, j).0 == EnginePoll::<u64, u64>::Resolved(resolution_of(ops[i])),
{
}

/// Strategy B executable engine: one scheduler poll. Ask the backend for a
/// readiness guard; without one, suspend (or propagate the query's error).
/// With one, attempt the operation exactly once inside the guard's scope
/// via [`guarded_attempt`].
///
/// The guard used for the attempt is returned beside the poll outcome, so
/// a caller can observe whether the readiness claim was cleared; `None`
/// means no guard was obtained and the operation was not attempted.
pub fn poll_single_shot(ops: &mut OpScript, ready: &mut ReadyScript) -> (r: (
    EnginePoll<u64, u64>,
    Option<ReadyGuard>,
))
    requires
        old(ops).wf(),
        old(ready).wf(),
        old(ready).next < old(ready).events@.len(),
        old(ready).events@[old(ready).next as int] is IsReady ==> old(ops).next < old(
            ops,
        ).outcomes@.len(),
    ensures
        final(ops).wf(),
        final(ready).wf(),
        final(ops).outcomes@ == old(ops).outcomes@,
        final(ready).events@ == old(ready).events@,
        ({
            let (res, ni, nj) = engine_b(
                old(ops).outcomes@,
                old(ready).events@,
                old(ops).next as int,
                old(ready).next as int,
            );
            r.0 == res && final(ops).next == ni && final(ready).next == nj
        }),
        ({
            let ev = old(ready).events@[old(ready).next as int];
            if ev is IsReady {
                r.1 matches Some(g) && g.cleared == (old(ops).outcomes@[old(
                    ops,
                ).next as int] is WouldBlock)
            } else {
                r.1 is None
            }
        }),
{
    let c = ready.events[ready.next];
    ready.next = ready.next + 1;
    match c {
        ReadyCheck::NotReady => (EnginePoll::Suspended, None),
        ReadyCheck::CheckFailed(e) => (EnginePoll::Resolved(Resolution::Error(e)), None),
        ReadyCheck::IsReady => {
            let mut guard = ReadyGuard::new();
            let a = ops.outcomes[ops.next];
            ops.next = ops.next + 1;
            let r = guarded_attempt(&mut guard, a);
            (r, Some(guard))
        },
    }
}

} // verus!
