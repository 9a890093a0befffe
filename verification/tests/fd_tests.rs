use ready_io::backend::{Backend, BuildError};
use ready_io::engine::{Attempt, EnginePoll, OpScript, ReadyCheck, ReadyScript, Resolution};
use ready_io::fd::{AsyncReadyFd, FdBuilder, RawHandle};
use ready_io::{AsyncIoBuilder, TokioBuilder};

#[test]
fn builder_registers_the_handle() {
    let mut backend = Backend::new(1, 4);
    let fd = AsyncIoBuilder
        .build_fd(&mut backend, RawHandle { fd: 10 })
        .expect("capacity left");
    assert_eq!(fd.slot, 0);
    assert_eq!(fd.backend, 1);
    assert_eq!(fd.handle, RawHandle { fd: 10 });
    // Registered, but no wakeup interest armed yet.
    assert!(!backend.can_wake_read(0));
    assert!(!backend.can_wake_write(0));
}

#[test]
fn builder_exhaustion_returns_the_handle_unregistered() {
    let mut backend = Backend::new(1, 0);
    let raw = RawHandle { fd: 10 };
    let err = AsyncIoBuilder.build_fd(&mut backend, raw).expect_err("no capacity");
    assert_eq!(err, (raw, BuildError::Exhausted));

    let mut backend = Backend::new(2, 0);
    let err = TokioBuilder.build_fd(&mut backend, raw).expect_err("no capacity");
    assert_eq!(err, (raw, BuildError::Exhausted));
}

#[test]
fn read_future_suspends_then_resolves() {
    let mut backend = Backend::new(1, 4);
    let fd = AsyncIoBuilder
        .build_fd(&mut backend, RawHandle { fd: 10 })
        .expect("capacity left");
    let mut fut = fd.read_with(OpScript::new(vec![Attempt::WouldBlock, Attempt::Done(42)]));
    let mut ready = ReadyScript::new(vec![ReadyCheck::NotReady]);

    let first = fut.poll(&fd, &mut backend, &mut ready);
    assert_eq!(first, EnginePoll::Suspended);
    // The suspension armed the read-direction wakeup.
    assert!(backend.can_wake_read(fd.slot));

    let second = fut.poll(&fd, &mut backend, &mut ready);
    assert_eq!(second, EnginePoll::Resolved(Resolution::Value(42)));
    assert!(!backend.can_wake_read(fd.slot));
}

#[test]
fn cancelled_read_future_releases_wakeup_interest() {
    let mut backend = Backend::new(1, 4);
    let fd = AsyncIoBuilder
        .build_fd(&mut backend, RawHandle { fd: 10 })
        .expect("capacity left");
    let mut fut = fd.read_with(OpScript::new(vec![Attempt::WouldBlock, Attempt::Done(1)]));
    let mut ready = ReadyScript::new(vec![ReadyCheck::NotReady]);

    assert_eq!(fut.poll(&fd, &mut backend, &mut ready), EnginePoll::Suspended);
    assert!(backend.can_wake_read(fd.slot));

    fut.cancel(&fd, &mut backend);
    // No wakeup can be delivered for the cancelled operation.
    assert!(!backend.can_wake_read(fd.slot));
}

#[test]
fn cancelled_write_future_releases_wakeup_interest() {
    let mut backend = Backend::new(1, 4);
    let fd = AsyncIoBuilder
        .build_fd(&mut backend, RawHandle { fd: 10 })
        .expect("capacity left");
    let mut fut = fd.write_with(OpScript::new(vec![Attempt::WouldBlock, Attempt::Done(1)]));
    let mut ready = ReadyScript::new(vec![ReadyCheck::NotReady]);

    assert_eq!(fut.poll(&fd, &mut backend, &mut ready), EnginePoll::Suspended);
    assert!(backend.can_wake_write(fd.slot));

    fut.cancel(&fd, &mut backend);
    assert!(!backend.can_wake_write(fd.slot));
}

#[test]
fn single_shot_wrapper_resolves_through_the_trait() {
    let mut backend = Backend::new(3, 4);
    let fd = TokioBuilder
        .build_fd(&mut backend, RawHandle { fd: 11 })
        .expect("capacity left");
    let mut ops = OpScript::new(vec![Attempt::Done(5)]);
    let mut ready = ReadyScript::new(vec![ReadyCheck::IsReady]);
    let r = fd.poll_read_with(&mut backend, &mut ops, &mut ready);
    assert_eq!(r, EnginePoll::Resolved(Resolution::Value(5)));
    assert!(!backend.can_wake_read(fd.slot));
}

#[test]
fn single_shot_wrapper_false_positive_suspends() {
    let mut backend = Backend::new(3, 4);
    let fd = TokioBuilder
        .build_fd(&mut backend, RawHandle { fd: 11 })
        .expect("capacity left");
    let mut ops = OpScript::new(vec![Attempt::WouldBlock, Attempt::Done(6)]);
    let mut ready = ReadyScript::new(vec![ReadyCheck::IsReady, ReadyCheck::IsReady]);
    // The backend claims readiness, the operation still blocks: one
    // attempt is consumed and the poll suspends.
    let r = fd.poll_write_with(&mut backend, &mut ops, &mut ready);
    assert_eq!(r, EnginePoll::Suspended);
    assert_eq!(ops.next, 1);
    assert!(backend.can_wake_write(fd.slot));
    // The re-armed notification leads to the next poll resolving.
    let r = fd.poll_write_with(&mut backend, &mut ops, &mut ready);
    assert_eq!(r, EnginePoll::Resolved(Resolution::Value(6)));
    assert!(!backend.can_wake_write(fd.slot));
}

#[test]
fn releasing_a_wrapper_frees_slot_and_interests() {
    let mut backend = Backend::new(1, 1);
    let fd = AsyncIoBuilder
        .build_fd(&mut backend, RawHandle { fd: 10 })
        .expect("capacity left");
    let slot = fd.slot;
    backend.set_read_interest(slot, true);
    fd.release(&mut backend);
    assert!(!backend.can_wake_read(slot));
    assert!(!backend.registered[slot]);
    // The capacity is free again.
    assert!(AsyncIoBuilder.build_fd(&mut backend, RawHandle { fd: 12 }).is_ok());
}
