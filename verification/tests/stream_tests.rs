use ready_io::backend::Backend;
use ready_io::fd::RawHandle;
use ready_io::stream::{FillBuf, ReadPoll, StreamRecord, WritePoll};
use ready_io::tcp::{StreamHandle, TcpBuilder};
use ready_io::AsyncIoBuilder;

fn stream_on(backend: &mut Backend) -> StreamHandle {
    AsyncIoBuilder
        .build_stream(backend, RawHandle { fd: 3 })
        .expect("capacity left")
}

#[test]
fn both_shapes_observe_one_stream_without_duplication() {
    let mut backend = Backend::new(1, 4);
    let s = stream_on(&mut backend);
    let mut rec = StreamRecord::new(b"abcdef".to_vec());

    // Shape 1: fill-cursor buffer of capacity 3.
    let mut buf = FillBuf::new(3);
    let r = s.poll_read_buf(&mut backend, &mut rec, &mut buf);
    assert_eq!(r, ReadPoll::Filled(3));
    assert_eq!(buf.filled, 3);
    assert_eq!(&buf.data, b"abc");

    // Shape 2: plain slice with count, on the same record.
    let mut out = vec![0u8; 3];
    let r = s.poll_read_slice(&mut backend, &mut rec, &mut out);
    assert_eq!(r, ReadPoll::Filled(3));
    assert_eq!(&out, b"def");
}

#[test]
fn fill_cursor_read_touches_only_the_unfilled_region() {
    let mut backend = Backend::new(1, 4);
    let s = stream_on(&mut backend);
    let mut rec = StreamRecord::new(b"XY".to_vec());
    let mut buf = FillBuf::new(4);
    buf.data = vec![9, 9, 9, 9];
    buf.filled = 1;
    let r = s.poll_read_buf(&mut backend, &mut rec, &mut buf);
    assert_eq!(r, ReadPoll::Filled(2));
    assert_eq!(buf.filled, 3);
    assert_eq!(buf.data, vec![9, b'X', b'Y', 9]);
}

#[test]
fn read_with_nothing_available_suspends() {
    let mut backend = Backend::new(1, 4);
    let s = stream_on(&mut backend);
    let mut rec = StreamRecord::new(Vec::new());
    let mut buf = FillBuf::new(2);
    let r = s.poll_read_buf(&mut backend, &mut rec, &mut buf);
    assert_eq!(r, ReadPoll::Pending);
    assert!(backend.can_wake_read(s.slot));

    let mut out = vec![0u8; 2];
    let r = s.poll_read_slice(&mut backend, &mut rec, &mut out);
    assert_eq!(r, ReadPoll::Pending);
}

#[test]
fn peer_close_turns_empty_reads_into_end_of_stream() {
    let mut backend = Backend::new(1, 4);
    let s = stream_on(&mut backend);
    let mut rec = StreamRecord::new(b"zz".to_vec());
    rec.peer_close();

    // Buffered bytes still drain...
    let mut out = vec![0u8; 4];
    let r = s.poll_read_slice(&mut backend, &mut rec, &mut out);
    assert_eq!(r, ReadPoll::Filled(2));
    assert_eq!(&out[..2], b"zz");

    // ...and once drained, reads report end of stream instead of pending.
    let r = s.poll_read_slice(&mut backend, &mut rec, &mut out);
    assert_eq!(r, ReadPoll::Filled(0));
    let mut buf = FillBuf::new(4);
    let r = s.poll_read_buf(&mut backend, &mut rec, &mut buf);
    assert_eq!(r, ReadPoll::Filled(0));
    assert_eq!(buf.filled, 0);
}

#[test]
fn read_into_a_full_buffer_resolves_with_zero() {
    let mut backend = Backend::new(1, 4);
    let s = stream_on(&mut backend);
    let mut rec = StreamRecord::new(b"data".to_vec());
    let mut buf = FillBuf::new(0);
    let r = s.poll_read_buf(&mut backend, &mut rec, &mut buf);
    assert_eq!(r, ReadPoll::Filled(0));
}

#[test]
fn partial_write_is_not_an_error() {
    let mut backend = Backend::new(1, 4);
    let s = stream_on(&mut backend);
    let mut rec = StreamRecord::new(Vec::new());
    let r = s.poll_write(&mut backend, &mut rec, &b"hello".to_vec(), 2);
    assert_eq!(r, WritePoll::Accepted(2));
    assert_eq!(&rec.data, b"he");
}

#[test]
fn write_with_no_budget_suspends() {
    let mut backend = Backend::new(1, 4);
    let s = stream_on(&mut backend);
    let mut rec = StreamRecord::new(Vec::new());
    let r = s.poll_write(&mut backend, &mut rec, &b"hello".to_vec(), 0);
    assert_eq!(r, WritePoll::Pending);
    assert!(backend.can_wake_write(s.slot));
}

#[test]
fn vectored_write_accepts_a_prefix_and_the_remainder_completes_it() {
    let mut backend = Backend::new(1, 4);
    let s = stream_on(&mut backend);
    let mut rec = StreamRecord::new(Vec::new());

    let segs = vec![b"ab".to_vec(), b"cd".to_vec()];
    let r = s.poll_write_vectored(&mut backend, &mut rec, &segs, 3);
    let accepted = match r {
        WritePoll::Accepted(n) => n,
        other => panic!("expected an accepted count, got {:?}", other),
    };
    assert!(accepted <= 4);
    assert_eq!(accepted, 3);
    assert_eq!(&rec.data, b"abc");

    // Repeat with only the unaccepted remainder: every byte of the four
    // is transmitted exactly once.
    let remainder = vec![b"d".to_vec()];
    let r = s.poll_write_vectored(&mut backend, &mut rec, &remainder, 8);
    assert_eq!(r, WritePoll::Accepted(1));
    assert_eq!(&rec.data, b"abcd");
}

#[test]
fn vectored_write_takes_everything_within_budget() {
    let mut backend = Backend::new(1, 4);
    let s = stream_on(&mut backend);
    let mut rec = StreamRecord::new(Vec::new());
    let segs = vec![b"ab".to_vec(), Vec::new(), b"cd".to_vec()];
    let r = s.poll_write_vectored(&mut backend, &mut rec, &segs, 100);
    assert_eq!(r, WritePoll::Accepted(4));
    assert_eq!(&rec.data, b"abcd");
}

#[test]
fn half_close_fails_writes_but_reads_continue() {
    let mut backend = Backend::new(1, 4);
    let s = stream_on(&mut backend);
    // The peer already buffered two bytes for us.
    let mut rec = StreamRecord::new(b"xy".to_vec());

    s.poll_shutdown(&mut rec);
    let r = s.poll_write(&mut backend, &mut rec, &b"zz".to_vec(), 8);
    assert_eq!(r, WritePoll::ShutDown);
    let r = s.poll_write_vectored(&mut backend, &mut rec, &vec![b"z".to_vec()], 8);
    assert_eq!(r, WritePoll::ShutDown);

    // The read half remains valid while data remains buffered.
    let mut out = vec![0u8; 2];
    let r = s.poll_read_slice(&mut backend, &mut rec, &mut out);
    assert_eq!(r, ReadPoll::Filled(2));
    assert_eq!(&out, b"xy");

    // Shutting down again is safe.
    s.poll_shutdown(&mut rec);
    assert!(rec.write_closed);
}

#[test]
fn flush_is_a_pass_through() {
    let mut backend = Backend::new(1, 4);
    let s = stream_on(&mut backend);
    let mut rec = StreamRecord::new(b"q".to_vec());
    s.poll_flush(&rec);
    s.poll_write(&mut backend, &mut rec, &b"r".to_vec(), 8);
    s.poll_flush(&rec);
    assert_eq!(&rec.data, b"qr");
}
