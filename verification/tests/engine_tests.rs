use ready_io::engine::{
    guarded_attempt, poll_retry, poll_single_shot, retry_attempt, retry_readiness, Attempt,
    AttemptStep, EnginePoll, OpScript, ReadinessStep, ReadyCheck, ReadyGuard, ReadyScript,
    Resolution,
};

#[test]
fn resolves_first_attempt_without_suspension() {
    let mut ops = OpScript::new(vec![Attempt::Done(7)]);
    let mut ready = ReadyScript::new(vec![]);
    let r = poll_retry(&mut ops, &mut ready);
    assert_eq!(r, EnginePoll::Resolved(Resolution::Value(7)));
    assert_eq!(ops.next, 1);
    // No suspension: the readiness query was never consulted.
    assert_eq!(ready.next, 0);
}

#[test]
fn error_propagates_verbatim() {
    let mut ops = OpScript::new(vec![Attempt::Failed(5)]);
    let mut ready = ReadyScript::new(vec![]);
    let r = poll_retry(&mut ops, &mut ready);
    assert_eq!(r, EnginePoll::Resolved(Resolution::Error(5)));
    assert_eq!(ready.next, 0);
}

#[test]
fn single_would_block_suspends_once_then_succeeds() {
    let mut ops = OpScript::new(vec![Attempt::WouldBlock, Attempt::Done(9)]);
    let mut ready = ReadyScript::new(vec![ReadyCheck::NotReady]);
    let first = poll_retry(&mut ops, &mut ready);
    assert_eq!(first, EnginePoll::Suspended);
    assert_eq!(ops.next, 1);
    assert_eq!(ready.next, 1);
    // After the (simulated) readiness notification, the next poll resolves.
    let second = poll_retry(&mut ops, &mut ready);
    assert_eq!(second, EnginePoll::Resolved(Resolution::Value(9)));
    assert_eq!(ops.next, 2);
    assert_eq!(ready.next, 1);
}

#[test]
fn ready_answer_retries_within_one_poll() {
    let mut ops = OpScript::new(vec![Attempt::WouldBlock, Attempt::Done(3)]);
    let mut ready = ReadyScript::new(vec![ReadyCheck::IsReady]);
    let r = poll_retry(&mut ops, &mut ready);
    assert_eq!(r, EnginePoll::Resolved(Resolution::Value(3)));
    assert_eq!(ops.next, 2);
    assert_eq!(ready.next, 1);
}

#[test]
fn readiness_query_failure_resolves_with_its_error() {
    let mut ops = OpScript::new(vec![Attempt::WouldBlock, Attempt::Done(1)]);
    let mut ready = ReadyScript::new(vec![ReadyCheck::CheckFailed(11)]);
    let r = poll_retry(&mut ops, &mut ready);
    assert_eq!(r, EnginePoll::Resolved(Resolution::Error(11)));
}

#[test]
fn single_shot_not_ready_never_invokes_the_closure() {
    let mut ops = OpScript::new(vec![Attempt::Done(1)]);
    let mut ready = ReadyScript::new(vec![ReadyCheck::NotReady]);
    let (r, guard) = poll_single_shot(&mut ops, &mut ready);
    assert_eq!(r, EnginePoll::Suspended);
    assert!(guard.is_none());
    assert_eq!(ops.next, 0);
}

#[test]
fn single_shot_clears_guard_on_would_block() {
    // The fake guard records whether the clear-readiness correction ran.
    let mut ops = OpScript::new(vec![Attempt::WouldBlock]);
    let mut ready = ReadyScript::new(vec![ReadyCheck::IsReady]);
    let (r, guard) = poll_single_shot(&mut ops, &mut ready);
    assert_eq!(r, EnginePoll::Suspended);
    assert!(guard.expect("a guard was issued").was_cleared());
}

#[test]
fn single_shot_success_releases_guard_uncleared() {
    let mut ops = OpScript::new(vec![Attempt::Done(4)]);
    let mut ready = ReadyScript::new(vec![ReadyCheck::IsReady]);
    let (r, guard) = poll_single_shot(&mut ops, &mut ready);
    assert_eq!(r, EnginePoll::Resolved(Resolution::Value(4)));
    assert!(!guard.expect("a guard was issued").was_cleared());
}

#[test]
fn single_shot_query_failure_resolves_with_its_error() {
    let mut ops = OpScript::new(vec![Attempt::Done(4)]);
    let mut ready = ReadyScript::new(vec![ReadyCheck::CheckFailed(13)]);
    let (r, guard) = poll_single_shot(&mut ops, &mut ready);
    assert_eq!(r, EnginePoll::Resolved(Resolution::Error(13)));
    assert!(guard.is_none());
    assert_eq!(ops.next, 0);
}

#[test]
fn guarded_attempt_clears_before_reporting_pending() {
    let mut guard = ReadyGuard::new();
    let r = guarded_attempt(&mut guard, Attempt::<u64, u64>::WouldBlock);
    assert_eq!(r, EnginePoll::Suspended);
    assert!(guard.was_cleared());

    let mut guard = ReadyGuard::new();
    let r = guarded_attempt(&mut guard, Attempt::<u64, u64>::Failed(2));
    assert_eq!(r, EnginePoll::Resolved(Resolution::Error(2)));
    assert!(!guard.was_cleared());
}

#[test]
fn suspension_needs_no_decisive_attempt_in_the_script() {
    // "Would block now, backend not ready": the script holds nothing
    // beyond what the poll consumes.
    let mut ops = OpScript::new(vec![Attempt::WouldBlock]);
    let mut ready = ReadyScript::new(vec![ReadyCheck::NotReady]);
    let r = poll_retry(&mut ops, &mut ready);
    assert_eq!(r, EnginePoll::Suspended);
    assert_eq!(ops.next, 1);
    assert_eq!(ready.next, 1);
}

#[test]
fn per_event_steps_decide_like_the_engine() {
    assert_eq!(
        retry_attempt(Attempt::<u64, u64>::Done(3)),
        AttemptStep::Resolve(Resolution::Value(3))
    );
    assert_eq!(retry_attempt(Attempt::<u64, u64>::WouldBlock), AttemptStep::CheckReadiness);
    assert_eq!(
        retry_attempt(Attempt::<u64, u64>::Failed(9)),
        AttemptStep::Resolve(Resolution::Error(9))
    );
    assert_eq!(retry_readiness(ReadyCheck::<u64>::IsReady), ReadinessStep::RetryNow);
    assert_eq!(retry_readiness(ReadyCheck::<u64>::NotReady), ReadinessStep::SuspendTask);
    assert_eq!(retry_readiness(ReadyCheck::<u64>::CheckFailed(4)), ReadinessStep::FailNow(4));
}
