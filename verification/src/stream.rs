//! The two external stream-consumption shapes of a wrapped stream, with
//! vectored-write and half-close semantics.
//!
//! The byte traffic of one connection is modelled by a [`StreamRecord`]:
//! the bytes the peer has made available so far, a cursor over how many of
//! them this side has consumed, and the half-close state of this side's
//! write half. Shape 1 ([`StreamHandle::poll_read_buf`]) fills the
//! unfilled region of a caller-supplied buffer and advances its fill
//! cursor; shape 2 ([`StreamHandle::poll_read_slice`]) fills a plain byte
//! region and returns the count. Both shapes consume the same record
//! through the same cursor, so reads through either observe one byte
//! stream with no duplication or loss.
//!
//! A record also carries whether the peer has closed its sending side:
//! once it has and the buffered bytes are drained, reads resolve with a
//! zero count (end of stream) instead of suspending.
//!
//! Writes report the bytes accepted — a partial write is not an error —
//! and a vectored write may accept any prefix of its segments' combined
//! bytes. After a shutdown of the write half every write reports the
//! shut-down error while reads continue to drain what the peer buffered.

use vstd::prelude::*;
use vstd::assert_seqs_equal;
use crate::backend::{Backend, read_interest_set, write_interest_set};
use crate::tcp::StreamHandle;

verus! {

/// The smaller of two integers.
pub open spec fn min_int(a: int, b: int) -> int {
    if a <= b {
        a
    } else {
        b
    }
}

/// The byte traffic of one connection, as this side observes it.
pub struct StreamRecord {
    /// Every byte the peer has made available so far, in order.
    pub data: Vec<u8>,
    /// How many of those bytes this side has already consumed.
    pub read_pos: usize,
    /// Whether this side's write half has been shut down.
    pub write_closed: bool,
    /// Whether the peer has closed its sending side: no byte will be
    /// appended to `data` by the peer any more.
    pub peer_closed: bool,
}

impl StreamRecord {
    pub open spec fn wf(&self) -> bool {
        self.read_pos <= self.data.len()
    }

    /// Bytes available to read right now.
    pub open spec fn avail(&self) -> int {
        self.data@.len() - self.read_pos
    }

    /// A fresh record holding `data`, none of it consumed, write half open.
    pub fn new(data: Vec<u8>) -> (r: StreamRecord)
        ensures
            r.wf(),
            r.data@ == data@,
            r.read_pos == 0,
            !r.write_closed,
            !r.peer_closed,
    {
        StreamRecord { data, read_pos: 0, write_closed: false, peer_closed: false }
    }

    /// The peer closed its sending side: whatever is buffered can still be
    /// read, and after that reads report end of stream.
    pub fn peer_close(&mut self)
        requires
            old(self).wf(),
        ensures
            final(self).wf(),
            final(self).peer_closed,
            final(self).data@ == old(self).data@,
            final(self).read_pos == old(self).read_pos,
            final(self).write_closed == old(self).write_closed,
    {
        self.peer_closed = true;
    }
}

/// A caller-supplied read buffer with declared capacity (`data.len()`) and
/// a fill cursor: bytes before `filled` hold data, the rest is unfilled.
pub struct FillBuf {
    /// The buffer; its length is the declared capacity.
    pub data: Vec<u8>,
    /// How many bytes at the front are filled.
    pub filled: usize,
}

impl FillBuf {
    pub open spec fn wf(&self) -> bool {
        self.filled <= self.data.len()
    }

    /// Room left in the unfilled region.
    pub open spec fn room(&self) -> int {
        self.data@.len() - self.filled
    }

    /// A fresh, entirely unfilled buffer of capacity `capacity`, zeroed.
    pub fn new(capacity: usize) -> (r: FillBuf)
        ensures
            r.wf(),
            r.data@.len() == capacity,
            r.filled == 0,
            forall|j: int| 0 <= j < capacity ==> r.data@[j] == 0,
    {
        let mut data: Vec<u8> = Vec::new();
        let mut k: usize = 0;
        while k < capacity
            invariant
                k <= capacity,
                data@.len() == k,
                forall|j: int| 0 <= j < k ==> data@[j] == 0,
            decreases capacity - k,
        {
            data.push(0);
            k = k + 1;
        }
        FillBuf { data, filled: 0 }
    }
}

/// What one poll of a read-shaped operation produces.
#[derive(Clone, Copy, PartialEq, Eq, Structural, Debug)]
pub enum ReadPoll {
    /// This many bytes were transferred.
    Filled(usize),
    /// No bytes are available; a read-direction wakeup has been armed.
    Pending,
}

/// What one poll of a write-shaped operation produces.
#[derive(Clone, Copy, PartialEq, Eq, Structural, Debug)]
pub enum WritePoll {
    /// This many bytes were accepted; fewer than requested is not an error.
    Accepted(usize),
    /// The write half has been shut down.
    ShutDown,
    /// The transport accepted nothing; a write-direction wakeup has been
    /// armed.
    Pending,
}

/// The views of a sequence of byte segments.
pub open spec fn seg_views(segs: Seq<Vec<u8>>) -> Seq<Seq<u8>> {
    segs.map_values(|v: Vec<u8>| v@)
}

/// All the bytes of `segs`, in order.
pub open spec fn flat(segs: Seq<Seq<u8>>) -> Seq<u8>
    decreases segs.len(),
{
    if segs.len() == 0 {
        Seq::empty()
    } else {
        flat(segs.drop_last()) + segs.last()
    }
}

pub proof fn lemma_flat_take_step(segs: Seq<Seq<u8>>, i: int)
    requires
        0 <= i < segs.len(),
    ensures
        flat(segs.take(i + 1)) == flat(segs.take(i)) + segs[i],
{
    assert(segs.take(i + 1).drop_last() =~= segs.take(i));
    assert(segs.take(i + 1).last() == segs[i]);
}

pub proof fn lemma_flat_split(segs: Seq<Seq<u8>>, i: int)
    requires
        0 <= i <= segs.len(),
    ensures
        flat(segs) == flat(segs.take(i)) + flat(segs.skip(i)),
    decreases segs.len(),
{
    if i == segs.len() {
        assert(segs.take(i) =~= segs);
        assert(segs.skip(i) =~= Seq::<Seq<u8>>::empty());
        assert(flat(segs) + flat(segs.skip(i)) =~= flat(segs));
    } else {
        let dl = segs.drop_last();
        lemma_flat_split(dl, i);
        assert(dl.take(i) =~= segs.take(i));
        assert(segs.skip(i).drop_last() =~= dl.skip(i));
        assert(segs.skip(i).last() == segs.last());
        assert(segs.skip(i).len() > 0);
        assert(flat(segs.skip(i)) == flat(dl.skip(i)) + segs.last());
        assert(flat(segs.take(i)) + (flat(dl.skip(i)) + segs.last()) =~= (flat(segs.take(i))
            + flat(dl.skip(i))) + segs.last());
    }
}

/// Consecutive reads observe the byte stream in order: the bytes of a read
/// of `a` bytes followed by a read of `b` bytes, through either shape, are
/// exactly the next `a + b` bytes of the record — no duplication, no loss.
pub proof fn lemma_reads_consecutive(data: Seq<u8>, p: int, a: int, b: int)
    requires
        0 <= p,
        0 <= a,
        0 <= b,
        p + a + b <= data.len(),
    ensures
        data.subrange(p, p + a) + data.subrange(p + a, p + a + b) == data.subrange(p, p + a + b),
{
    assert_seqs_equal!(
        data.subrange(p, p + a) + data.subrange(p + a, p + a + b),
        data.subrange(p, p + a + b)
    );
}

/// Repeating a write with the unaccepted remainder completes the transfer
/// exactly once: if a (vectored) write of bytes `all` accepted the first
/// `n` and a second write appends the remainder, the record ends holding
/// the prior data followed by every byte of `all` exactly once.
pub proof fn lemma_remainder_completes(data: Seq<u8>, all: Seq<u8>, n: int)
    requires
        0 <= n <= all.len(),
    ensures
        (data + all.take(n)) + all.skip(n) == data + all,
{
    assert_seqs_equal!((data + all.take(n)) + all.skip(n), data + all);
}

impl StreamHandle {
    /// Shape 1: read into the unfilled region of `buf` and advance its
    /// fill cursor by the count actually read; no side effect beyond the
    /// advance. With room but nothing available the poll suspends and arms
    /// the read-direction wakeup — unless the peer has closed its sending
    /// side, in which case the read resolves with a zero count (end of
    /// stream).
    pub fn poll_read_buf(&self, backend: &mut Backend, rec: &mut StreamRecord, buf: &mut FillBuf)
        -> (r: ReadPoll)
        requires
            old(backend).wf(),
            old(backend).is_registered(self.slot as int),
            old(rec).wf(),
            old(buf).wf(),
        ensures
            final(backend).wf(),
            final(rec).wf(),
            final(buf).wf(),
            final(rec).data@ == old(rec).data@,
            final(rec).write_closed == old(rec).write_closed,
            final(rec).peer_closed == old(rec).peer_closed,
            final(buf).data@.len() == old(buf).data@.len(),
            ({
                let n = min_int(old(rec).avail(), old(buf).room());
                if old(rec).avail() == 0 && old(buf).room() > 0 && !old(rec).peer_closed {
                    &&& r == ReadPoll::Pending
                    &&& final(rec).read_pos == old(rec).read_pos
                    &&& final(buf).data@ == old(buf).data@
                    &&& final(buf).filled == old(buf).filled
                    &&& read_interest_set(*old(backend), *final(backend), self.slot as int, true)
                } else {
                    &&& r == ReadPoll::Filled(n as usize)
                    &&& final(rec).read_pos == old(rec).read_pos + n
                    &&& final(buf).filled == old(buf).filled + n
                    &&& final(buf).data@ == old(buf).data@.take(old(buf).filled as int)
                        + old(rec).data@.subrange(
                        old(rec).read_pos as int,
                        old(rec).read_pos + n,
                    ) + old(buf).data@.skip(old(buf).filled + n)
                    &&& read_interest_set(*old(backend), *final(backend), self.slot as int, false)
                }
            }),
    {
        let avail = rec.data.len() - rec.read_pos;
        let room = buf.data.len() - buf.filled;
        if avail == 0 && room > 0 && !rec.peer_closed {
            backend.set_read_interest(self.slot, true);
            ReadPoll::Pending
        } else {
            let n = if avail <= room {
                avail
            } else {
                room
            };
            let ghost pre_buf = buf.data@;
            let ghost rp = rec.read_pos as int;
            let ghost fl = buf.filled as int;
            let mut k: usize = 0;
            #[verifier::loop_isolation(false)]
            while k < n
                invariant
                    k <= n,
                    buf.filled == fl,
                    buf.data@.len() == pre_buf.len(),
                    forall|j: int| 0 <= j < fl + k ==> buf.data@[j] == #[trigger] (pre_buf.take(
                        fl,
                    ) + rec.data@.subrange(rp, rp + n) + pre_buf.skip(fl + n))[j],
                    forall|j: int| fl + k <= j < pre_buf.len() ==> buf.data@[j] == pre_buf[j],
                decreases n - k,
            {
                let b = rec.data[rec.read_pos + k];
                buf.data[buf.filled + k] = b;
                k = k + 1;
            }
            proof {
                assert_seqs_equal!(
                    buf.data@,
                    pre_buf.take(fl) + rec.data@.subrange(rp, rp + n) + pre_buf.skip(fl + n)
                );
            }
            rec.read_pos = rec.read_pos + n;
            buf.filled = buf.filled + n;
            backend.set_read_interest(self.slot, false);
            ReadPoll::Filled(n)
        }
    }

    /// Shape 2: read directly into the front of a plain byte region and
    /// return the count of bytes written; the rest of the region is
    /// untouched. With room but nothing available the poll suspends and
    /// arms the read-direction wakeup — unless the peer has closed its
    /// sending side, in which case the read resolves with a zero count
    /// (end of stream).
    pub fn poll_read_slice(&self, backend: &mut Backend, rec: &mut StreamRecord, out: &mut Vec<u8>)
        -> (r: ReadPoll)
        requires
            old(backend).wf(),
            old(backend).is_registered(self.slot as int),
            old(rec).wf(),
        ensures
            final(backend).wf(),
            final(rec).wf(),
            final(rec).data@ == old(rec).data@,
            final(rec).write_closed == old(rec).write_closed,
            final(rec).peer_closed == old(rec).peer_closed,
            final(out)@.len() == old(out)@.len(),
            ({
                let n = min_int(old(rec).avail(), old(out)@.len() as int);
                if old(rec).avail() == 0 && old(out)@.len() > 0 && !old(rec).peer_closed {
                    &&& r == ReadPoll::Pending
                    &&& final(rec).read_pos == old(rec).read_pos
                    &&& final(out)@ == old(out)@
                    &&& read_interest_set(*old(backend), *final(backend), self.slot as int, true)
                } else {
                    &&& r == ReadPoll::Filled(n as usize)
                    &&& final(rec).read_pos == old(rec).read_pos + n
                    &&& final(out)@ == old(rec).data@.subrange(
                        old(rec).read_pos as int,
                        old(rec).read_pos + n,
                    ) + old(out)@.skip(n)
                    &&& read_interest_set(*old(backend), *final(backend), self.slot as int, false)
                }
            }),
    {
        let avail = rec.data.len() - rec.read_pos;
        let room = out.len();
        if avail == 0 && room > 0 && !rec.peer_closed {
            backend.set_read_interest(self.slot, true);
            ReadPoll::Pending
        } else {
            let n = if avail <= room {
                avail
            } else {
                room
            };
            let ghost pre_out = out@;
            let ghost rp = rec.read_pos as int;
            let mut k: usize = 0;
            #[verifier::loop_isolation(false)]
            while k < n
                invariant
                    k <= n,
                    out@.len() == pre_out.len(),
                    forall|j: int| 0 <= j < k ==> out@[j] == rec.data@[rp + j],
                    forall|j: int| k <= j < pre_out.len() ==> out@[j] == pre_out[j],
                decreases n - k,
            {
                let b = rec.data[rec.read_pos + k];
                out[k] = b;
                k = k + 1;
            }
            proof {
                assert_seqs_equal!(
                    out@,
                    rec.data@.subrange(rp, rp + n) + pre_out.skip(n as int)
                );
            }
            rec.read_pos = rec.read_pos + n;
            backend.set_read_interest(self.slot, false);
            ReadPoll::Filled(n)
        }
    }

    /// Write from a plain byte region. `budget` is how many bytes the
    /// transport accepts in this attempt: the write appends that many
    /// bytes of `src` (all of them if the budget allows) and reports the
    /// count; a zero budget is the transport's would-block and suspends.
    /// After a shutdown of the write half every write reports
    /// [`WritePoll::ShutDown`].
    pub fn poll_write(
        &self,
        backend: &mut Backend,
        rec: &mut StreamRecord,
        src: &Vec<u8>,
        budget: usize,
    ) -> (r: WritePoll)
        requires
            old(backend).wf(),
            old(backend).is_registered(self.slot as int),
            old(rec).wf(),
        ensures
            final(backend).wf(),
            final(rec).wf(),
            final(rec).read_pos == old(rec).read_pos,
            final(rec).write_closed == old(rec).write_closed,
            final(rec).peer_closed == old(rec).peer_closed,
            old(rec).write_closed ==> ({
                &&& r == WritePoll::ShutDown
                &&& final(rec).data@ == old(rec).data@
                &&& write_interest_set(*old(backend), *final(backend), self.slot as int, false)
            }),
            !old(rec).write_closed && budget == 0 ==> ({
                &&& r == WritePoll::Pending
                &&& final(rec).data@ == old(rec).data@
                &&& write_interest_set(*old(backend), *final(backend), self.slot as int, true)
            }),
            !old(rec).write_closed && budget > 0 ==> ({
                let n = min_int(src@.len() as int, budget as int);
                &&& r == WritePoll::Accepted(n as usize)
                &&& final(rec).data@ == old(rec).data@ + src@.take(n)
                &&& write_interest_set(*old(backend), *final(backend), self.slot as int, false)
            }),
    {
        if rec.write_closed {
            backend.set_write_interest(self.slot, false);
            return WritePoll::ShutDown;
        }
        if budget == 0 {
            backend.set_write_interest(self.slot, true);
            return WritePoll::Pending;
        }
        let n = if src.len() <= budget {
            src.len()
        } else {
            budget
        };
        let ghost pre = rec.data@;
        let mut k: usize = 0;
        #[verifier::loop_isolation(false)]
        while k < n
            invariant
                k <= n,
                rec.data@ == pre + src@.take(k as int),
                rec.read_pos == old(rec).read_pos,
                rec.write_closed == old(rec).write_closed,
                rec.peer_closed == old(rec).peer_closed,
            decreases n - k,
        {
            let b = src[k];
            rec.data.push(b);
            proof {
                assert(src@.take(k + 1) =~= src@.take(k as int).push(src@[k as int]));
            }
            k = k + 1;
        }
        backend.set_write_interest(self.slot, false);
        WritePoll::Accepted(n)
    }

    /// Vectored write: accept bytes from multiple discontiguous segments
    /// in one call. The accepted count is the smaller of the segments'
    /// combined length and the transport's `budget`, and the accepted
    /// bytes are exactly that prefix of the segments' concatenation.
    pub fn poll_write_vectored(
        &self,
        backend: &mut Backend,
        rec: &mut StreamRecord,
        segs: &Vec<Vec<u8>>,
        budget: usize,
    ) -> (r: WritePoll)
        requires
            old(backend).wf(),
            old(backend).is_registered(self.slot as int),
            old(rec).wf(),
        ensures
            final(backend).wf(),
            final(rec).wf(),
            final(rec).read_pos == old(rec).read_pos,
            final(rec).write_closed == old(rec).write_closed,
            final(rec).peer_closed == old(rec).peer_closed,
            old(rec).write_closed ==> ({
                &&& r == WritePoll::ShutDown
                &&& final(rec).data@ == old(rec).data@
                &&& write_interest_set(*old(backend), *final(backend), self.slot as int, false)
            }),
            !old(rec).write_closed && budget == 0 ==> ({
                &&& r == WritePoll::Pending
                &&& final(rec).data@ == old(rec).data@
                &&& write_interest_set(*old(backend), *final(backend), self.slot as int, true)
            }),
            !old(rec).write_closed && budget > 0 ==> ({
                let all = flat(seg_views(segs@));
                let n = min_int(all.len() as int, budget as int);
                &&& r == WritePoll::Accepted(n as usize)
                &&& final(rec).data@ == old(rec).data@ + all.take(n)
                &&& write_interest_set(*old(backend), *final(backend), self.slot as int, false)
            }),
    {
        if rec.write_closed {
            backend.set_write_interest(self.slot, false);
            return WritePoll::ShutDown;
        }
        if budget == 0 {
            backend.set_write_interest(self.slot, true);
            return WritePoll::Pending;
        }
        let ghost sv = seg_views(segs@);
        let ghost all = flat(sv);
        let ghost pre = rec.data@;
        let mut written: usize = 0;
        let mut si: usize = 0;
        #[verifier::loop_isolation(false)]
        while si < segs.len() && written < budget
            invariant
                written <= budget,
                si <= segs.len(),
                written <= flat(sv.take(si as int)).len(),
                written < budget ==> written == flat(sv.take(si as int)).len(),
                rec.data@ == pre + all.take(written as int),
                rec.read_pos == old(rec).read_pos,
                rec.write_closed == old(rec).write_closed,
                rec.peer_closed == old(rec).peer_closed,
            decreases segs.len() - si,
        {
            let ghost w0 = written as int;
            proof {
                lemma_flat_take_step(sv, si as int);
                lemma_flat_split(sv, si as int + 1);
                assert(w0 == flat(sv.take(si as int)).len());
                assert(all == (flat(sv.take(si as int)) + sv[si as int]) + flat(
                    sv.skip(si as int + 1),
                ));
            }
            let seg_len = segs[si].len();
            let room = budget - written;
            let take_n = if seg_len <= room {
                seg_len
            } else {
                room
            };
            let mut k: usize = 0;
            #[verifier::loop_isolation(false)]
            while k < take_n
                invariant
                    k <= take_n,
                    rec.data@ == pre + all.take(w0 + k),
                    rec.read_pos == old(rec).read_pos,
                    rec.write_closed == old(rec).write_closed,
                    rec.peer_closed == old(rec).peer_closed,
                decreases take_n - k,
            {
                let b = segs[si][k];
                proof {
                    assert(all[w0 + k] == sv[si as int][k as int]);
                    assert(all.take(w0 + k + 1) =~= all.take(w0 + k).push(all[w0 + k]));
                }
                rec.data.push(b);
                k = k + 1;
            }
            written = written + take_n;
            si = si + 1;
            proof {
                if take_n == seg_len {
                    assert(written == flat(sv.take(si as int)).len());
                }
            }
        }
        proof {
            if si == segs.len() {
                assert(sv.take(si as int) =~= sv);
            } else {
                lemma_flat_split(sv, si as int);
            }
        }
        backend.set_write_interest(self.slot, false);
        WritePoll::Accepted(written)
    }

    /// Flush: this layer buffers nothing, so a flush completes at once and
    /// changes nothing.
    pub fn poll_flush(&self, rec: &StreamRecord)
        requires
            rec.wf(),
    {
    }

    /// Shut down the write half. The read half stays valid — whatever the
    /// peer already made available can still be read — and shutting down
    /// an already closed write half is safe and changes nothing else.
    pub fn poll_shutdown(&self, rec: &mut StreamRecord)
        requires
            old(rec).wf(),
        ensures
            final(rec).wf(),
            final(rec).write_closed,
            final(rec).data@ == old(rec).data@,
            final(rec).read_pos == old(rec).read_pos,
            final(rec).peer_closed == old(rec).peer_closed,
    {
        rec.write_closed = true;
    }
}

} // verus!
