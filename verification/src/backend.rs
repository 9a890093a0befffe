//! Model of a readiness-notification backend's registration table.
//!
//! A backend hands out registration slots for raw handles and tracks, per
//! slot and per direction, whether a wakeup interest is currently armed.
//! The model captures exactly what the retry-poll protocol relies on: a
//! fallible registration step (the backend may be out of resources), a
//! deregistration step that releases the slot and its interests, and the
//! rule that a wakeup can only be delivered for a slot whose interest is
//! armed.

use vstd::prelude::*;

verus! {

/// Why a builder failed to bind a raw handle to the backend.
#[derive(Clone, Copy, PartialEq, Eq, Structural, Debug)]
pub enum BuildError {
    /// The backend refused the registration (resource exhaustion).
    Exhausted,
}

/// Number of `true` entries in a sequence of booleans.
pub open spec fn count_true(s: Seq<bool>) -> int
    decreases s.len(),
{
    if s.len() == 0 {
        0
    } else {
        count_true(s.drop_last()) + if s.last() {
            1int
        } else {
            0int
        }
    }
}

pub proof fn lemma_count_true_bounds(s: Seq<bool>)
    ensures
        0 <= count_true(s) <= s.len(),
    decreases s.len(),
{
    if s.len() > 0 {
        lemma_count_true_bounds(s.drop_last());
    }
}

pub proof fn lemma_count_true_push(s: Seq<bool>, b: bool)
    ensures
        count_true(s.push(b)) == count_true(s) + if b {
            1int
        } else {
            0int
        },
{
    assert(s.push(b).drop_last() =~= s);
    assert(s.push(b).last() == b);
}

pub proof fn lemma_count_true_set_false(s: Seq<bool>, i: int)
    requires
        0 <= i < s.len(),
        s[i],
    ensures
        count_true(s.update(i, false)) == count_true(s) - 1,
    decreases s.len(),
{
    let t = s.update(i, false);
    if i == s.len() - 1 {
        assert(t.drop_last() =~= s.drop_last());
    } else {
        assert(t.drop_last() =~= s.drop_last().update(i, false));
        assert(t.last() == s.last());
        lemma_count_true_set_false(s.drop_last(), i);
    }
}

pub proof fn lemma_count_true_keep_false(s: Seq<bool>, i: int)
    requires
        0 <= i < s.len(),
        !s[i],
    ensures
        s.update(i, false) =~= s,
{
}

/// The registration table of one readiness-notification backend.
///
/// `registered[i]` says whether slot `i` currently holds a live handle;
/// `read_interest[i]` / `write_interest[i]` say whether a wakeup in that
/// direction is armed for the slot. `live` counts the live slots and may
/// never exceed `capacity`; a registration attempt past the capacity is the
/// modelled resource exhaustion. Slots are never reused: a deregistered slot
/// stays dead.
pub struct Backend {
    /// Identity of this backend, used to state that two handles are
    /// registered with the same backend.
    pub id: u64,
    /// How many live registrations the backend can hold at once.
    pub capacity: usize,
    /// How many registrations are currently live.
    pub live: usize,
    /// One entry per slot ever handed out: is the slot live?
    pub registered: Vec<bool>,
    /// One entry per slot: is a read-direction wakeup armed?
    pub read_interest: Vec<bool>,
    /// One entry per slot: is a write-direction wakeup armed?
    pub write_interest: Vec<bool>,
}

impl Backend {
    /// Internal consistency of the table.
    pub open spec fn wf(&self) -> bool {
        &&& self.read_interest@.len() == self.registered@.len()
        &&& self.write_interest@.len() == self.registered@.len()
        &&& self.live == count_true(self.registered@)
        &&& self.live <= self.capacity
    }

    /// Number of slots ever handed out.
    pub open spec fn slots(&self) -> int {
        self.registered.len() as int
    }

    /// Is `i` a slot with a live registration?
    pub open spec fn is_registered(&self, i: int) -> bool {
        0 <= i < self.slots() && self.registered@[i]
    }

    /// A fresh backend with no registrations.
    pub fn new(id: u64, capacity: usize) -> (b: Backend)
        ensures
            b.wf(),
            b.id == id,
            b.capacity == capacity,
            b.slots() == 0,
            b.live == 0,
    {
        Backend {
            id,
            capacity,
            live: 0,
            registered: Vec::new(),
            read_interest: Vec::new(),
            write_interest: Vec::new(),
        }
    }

    /// Register a handle: hand out a fresh live slot, with no interest armed,
    /// unless the backend is at capacity.
    pub fn register(&mut self) -> (r: Result<usize, BuildError>)
        requires
            old(self).wf(),
        ensures
            final(self).wf(),
            final(self).id == old(self).id,
            final(self).capacity == old(self).capacity,
            old(self).live < old(self).capacity ==> {
                &&& r == Ok::<usize, BuildError>((old(self).slots() as usize))
                &&& final(self).registered@ == old(self).registered@.push(true)
                &&& final(self).read_interest@ == old(self).read_interest@.push(false)
                &&& final(self).write_interest@ == old(self).write_interest@.push(false)
                &&& final(self).live == old(self).live + 1
            },
            old(self).live >= old(self).capacity ==> {
                &&& r == Err::<usize, BuildError>(BuildError::Exhausted)
                &&& final(self).registered@ == old(self).registered@
                &&& final(self).read_interest@ == old(self).read_interest@
                &&& final(self).write_interest@ == old(self).write_interest@
                &&& final(self).live == old(self).live
            },
    {
        if self.live < self.capacity {
            let slot = self.registered.len();
            proof {
                lemma_count_true_bounds(self.registered@);
                lemma_count_true_push(self.registered@, true);
            }
            self.registered.push(true);
            self.read_interest.push(false);
            self.write_interest.push(false);
            self.live = self.live + 1;
            Ok(slot)
        } else {
            Err(BuildError::Exhausted)
        }
    }

    /// Release slot `i`: the registration dies and both interests are
    /// disarmed. Releasing an already dead slot changes nothing.
    pub fn deregister(&mut self, i: usize)
        requires
            old(self).wf(),
            i < old(self).slots(),
        ensures
            final(self).wf(),
            final(self).id == old(self).id,
            final(self).capacity == old(self).capacity,
            final(self).registered@ == old(self).registered@.update(i as int, false),
            final(self).read_interest@ == old(self).read_interest@.update(i as int, false),
            final(self).write_interest@ == old(self).write_interest@.update(i as int, false),
            final(self).live == old(self).live - if old(self).registered@[i as int] {
                1int
            } else {
                0int
            },
    {
        let was_live = self.registered[i];
        proof {
            if was_live {
                lemma_count_true_set_false(self.registered@, i as int);
                lemma_count_true_bounds(self.registered@.update(i as int, false));
            } else {
                lemma_count_true_keep_false(self.registered@, i as int);
            }
        }
        self.registered[i] = false;
        self.read_interest[i] = false;
        self.write_interest[i] = false;
        if was_live {
            self.live = self.live - 1;
        }
    }

    /// Arm or disarm the read-direction wakeup interest of slot `i`.
    pub fn set_read_interest(&mut self, i: usize, armed: bool)
        requires
            old(self).wf(),
            i < old(self).slots(),
        ensures
            final(self).wf(),
            read_interest_set(*old(self), *final(self), i as int, armed),
    {
        self.read_interest[i] = armed;
    }

    /// Arm or disarm the write-direction wakeup interest of slot `i`.
    pub fn set_write_interest(&mut self, i: usize, armed: bool)
        requires
            old(self).wf(),
            i < old(self).slots(),
        ensures
            final(self).wf(),
            write_interest_set(*old(self), *final(self), i as int, armed),
    {
        self.write_interest[i] = armed;
    }

    /// Can the backend still deliver a read-direction wakeup for slot `i`?
    ///
    /// The backend delivers a wakeup only for a slot whose interest is
    /// armed; an operation that was cancelled (its interest disarmed) can
    /// therefore no longer be woken.
    pub fn can_wake_read(&self, i: usize) -> (r: bool)
        requires
            self.wf(),
            i < self.slots(),
        ensures
            r == self.read_interest@[i as int],
    {
        self.read_interest[i]
    }

    /// Can the backend still deliver a write-direction wakeup for slot `i`?
    pub fn can_wake_write(&self, i: usize) -> (r: bool)
        requires
            self.wf(),
            i < self.slots(),
        ensures
            r == self.write_interest@[i as int],
    {
        self.write_interest[i]
    }
}

/// `post` and `pre` agree on every field of the registration table.
pub open spec fn backend_unchanged(pre: Backend, post: Backend) -> bool {
    &&& post.id == pre.id
    &&& post.capacity == pre.capacity
    &&& post.live == pre.live
    &&& post.registered@ == pre.registered@
    &&& post.read_interest@ == pre.read_interest@
    &&& post.write_interest@ == pre.write_interest@
}

/// `post` is `pre` with the read interest of slot `i` set to `armed` and
/// nothing else changed.
pub open spec fn read_interest_set(pre: Backend, post: Backend, i: int, armed: bool) -> bool {
    &&& post.id == pre.id
    &&& post.capacity == pre.capacity
    &&& post.live == pre.live
    &&& post.registered@ == pre.registered@
    &&& post.read_interest@ == pre.read_interest@.update(i, armed)
    &&& post.write_interest@ == pre.write_interest@
}

/// `post` is `pre` with the write interest of slot `i` set to `armed` and
/// nothing else changed.
pub open spec fn write_interest_set(pre: Backend, post: Backend, i: int, armed: bool) -> bool {
    &&& post.id == pre.id
    &&& post.capacity == pre.capacity
    &&& post.live == pre.live
    &&& post.registered@ == pre.registered@
    &&& post.read_interest@ == pre.read_interest@
    &&& post.write_interest@ == pre.write_interest@.update(i, armed)
}

} // verus!
