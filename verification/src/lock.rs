//! The lock that serialises the calls on one session: one holder, and a
//! queue of waiting calls that is served in arrival order.

use vstd::prelude::*;

verus! {

/// The lock of one session. Calls are known by a number that their caller picks.
#[derive(Clone, Debug, PartialEq, Eq)]
pub struct CallLock {
    /// The call whose connect-authenticate-execute sequence is under way.
    pub holder: Option<u64>,
    /// The calls that wait for their turn, the longest waiting first.
    pub waiting: Vec<u64>,
}

pub struct CallLockView {
    pub holder: Option<u64>,
    pub waiting: Seq<u64>,
}

impl View for CallLock {
    type V = CallLockView;

    open spec fn view(&self) -> CallLockView {
        CallLockView { holder: self.holder, waiting: self.waiting@ }
    }
}

/// What a call that asked for the lock was told.
#[derive(Clone, Copy, Debug, PartialEq, Eq, Structural)]
pub enum Admission {
    /// The lock is the call's.
    Granted,
    /// Another call holds the lock; this one waits.
    Queued,
    /// A call of this number holds the lock or waits for it already.
    Refused,
}

impl CallLockView {
    /// Nobody waits for a free lock, and no call is known twice.
    pub open spec fn wf(self) -> bool {
        &&& self.holder is None ==> self.waiting.len() == 0
        &&& self.waiting.no_duplicates()
        &&& self.holder matches Some(h) ==> !self.waiting.contains(h)
    }

    /// Whether a call holds the lock or waits for it.
    pub open spec fn knows(self, call: u64) -> bool {
        self.holder == Some(call) || self.waiting.contains(call)
    }

    /// The lock after `call` asked for it, and what the call was told.
    pub open spec fn acquire(self, call: u64) -> (CallLockView, Admission) {
        if self.knows(call) {
            (self, Admission::Refused)
        } else if self.holder is None && self.waiting.len() == 0 {
            (CallLockView { holder: Some(call), waiting: self.waiting }, Admission::Granted)
        } else {
            (
                CallLockView { holder: self.holder, waiting: self.waiting.push(call) },
                Admission::Queued,
            )
        }
    }

    /// The lock after `call` gave it up or stopped waiting, and the call that
    /// the lock passed to, if it passed.
    pub open spec fn release(self, call: u64) -> (CallLockView, Option<u64>) {
        if self.holder == Some(call) {
            if self.waiting.len() > 0 {
                (
                    CallLockView { holder: Some(self.waiting[0]), waiting: self.waiting.drop_first() },
                    Some(self.waiting[0]),
                )
            } else {
                (CallLockView { holder: None, waiting: self.waiting }, None)
            }
        } else if position(self.waiting, call) < self.waiting.len() {
            (
                CallLockView {
                    holder: self.holder,
                    waiting: self.waiting.remove(position(self.waiting, call)),
                },
                None,
            )
        } else {
            (self, None)
        }
    }
}

/// The first place at which `x` stands in `s`, or the length of `s`.
pub open spec fn position(s: Seq<u64>, x: u64) -> int
    decreases s.len(),
{
    if s.len() == 0 {
        0
    } else if s[0] == x {
        0
    } else {
        1 + position(s.drop_first(), x)
    }
}

proof fn lemma_position(s: Seq<u64>, x: u64, i: int)
    requires
        0 <= i <= s.len(),
        forall|j: int| 0 <= j < i ==> s[j] != x,
        i < s.len() ==> s[i] == x,
    ensures
        position(s, x) == i,
    decreases s.len(),
{
    if s.len() > 0 && i > 0 {
        lemma_position(s.drop_first(), x, i - 1);
    }
}

impl CallLock {
    /// A free lock.
    pub fn new() -> (r: CallLock)
        ensures
            r@ == (CallLockView { holder: None, waiting: Seq::empty() }),
            r@.wf(),
    {
        CallLock { holder: None, waiting: Vec::new() }
    }

    fn place(&self, call: u64) -> (i: usize)
        ensures
            i == position(self.waiting@, call),
            i <= self.waiting@.len(),
            i < self.waiting@.len() <==> self.waiting@.contains(call),
    {
        let mut i: usize = 0;
        while i < self.waiting.len() && self.waiting[i] != call
            invariant
                i <= self.waiting.len(),
                forall|j: int| 0 <= j < i ==> self.waiting@[j] != call,
            decreases self.waiting.len() - i,
        {
            i += 1;
        }
        proof {
            lemma_position(self.waiting@, call, i as int);
        }
        i
    }

    /// Whether the lock is well formed. Every lock made and changed by the
    /// functions of this module is.
    pub fn check(&self) -> (r: bool)
        ensures
            r == self@.wf(),
    {
        let h: u64 = match self.holder {
            Some(h) => h,
            None => {
                return self.waiting.len() == 0;
            },
        };
        let mut i: usize = 0;
        while i < self.waiting.len()
            invariant
                i <= self.waiting.len(),
                self.holder == Some(h),
                forall|a: int| 0 <= a < i ==> self.waiting@[a] != h,
                forall|a: int, b: int| 0 <= a < b < i ==> self.waiting@[a] != self.waiting@[b],
            decreases self.waiting.len() - i,
        {
            if self.waiting[i] == h {
                assert(self.waiting@.contains(self.waiting@[i as int]));
                return false;
            }
            let mut j: usize = 0;
            while j < i
                invariant
                    j <= i,
                    i < self.waiting.len(),
                    forall|a: int| 0 <= a < j ==> self.waiting@[a] != self.waiting@[i as int],
                decreases i - j,
            {
                if self.waiting[j] == self.waiting[i] {
                    return false;
                }
                j += 1;
            }
            i += 1;
        }
        assert(self.waiting@.no_duplicates()) by {
            assert forall|a: int, b: int|
                0 <= a < self.waiting@.len() && 0 <= b < self.waiting@.len() && a
                    != b implies self.waiting@[a] != self.waiting@[b] by {
                if a < b {
                } else {
                    assert(self.waiting@[b] != self.waiting@[a]);
                }
            }
        }
        true
    }

    /// Whether `call` holds the lock.
    pub fn held_by(&self, call: u64) -> (r: bool)
        ensures
            r == (self@.holder == Some(call)),
    {
        match self.holder {
            Some(h) => h == call,
            None => false,
        }
    }

    /// Whether `call` holds the lock or waits for it.
    pub fn knows(&self, call: u64) -> (r: bool)
        ensures
            r == self@.knows(call),
    {
        self.held_by(call) || self.place(call) < self.waiting.len()
    }

    /// Asks for the lock on behalf of `call`.
    pub fn acquire(&mut self, call: u64) -> (r: Admission)
        requires
            old(self)@.wf(),
        ensures
            final(self)@.wf(),
            final(self)@ == old(self)@.acquire(call).0,
            r == old(self)@.acquire(call).1,
    {
        proof {
            lemma_apply_keeps_wf(self@, LockOp::Acquire(call));
        }
        if self.knows(call) {
            Admission::Refused
        } else if self.holder.is_none() {
            self.holder = Some(call);
            Admission::Granted
        } else {
            self.waiting.push(call);
            Admission::Queued
        }
    }

    /// Gives the lock up on behalf of `call`, or takes `call` out of the
    /// queue. Says which call the lock passed to, if it passed.
    pub fn release(&mut self, call: u64) -> (next: Option<u64>)
        requires
            old(self)@.wf(),
        ensures
            final(self)@.wf(),
            final(self)@ == old(self)@.release(call).0,
            next == old(self)@.release(call).1,
    {
        let ghost before = self.waiting@;
        proof {
            lemma_apply_keeps_wf(self@, LockOp::Release(call));
        }
        if self.held_by(call) {
            if self.waiting.len() > 0 {
                let first: u64 = self.waiting.remove(0);
                self.holder = Some(first);
                assert(self.waiting@ =~= before.drop_first());
                Some(first)
            } else {
                self.holder = None;
                None
            }
        } else {
            let at: usize = self.place(call);
            if at < self.waiting.len() {
                self.waiting.remove(at);
                assert(self.waiting@ =~= before.remove(at as int));
            }
            None
        }
    }
}

/// Something a call does to the lock.
pub enum LockOp {
    Acquire(u64),
    Release(u64),
}

impl CallLockView {
    /// The lock after one operation.
    pub open spec fn apply(self, op: LockOp) -> CallLockView {
        match op {
            LockOp::Acquire(call) => self.acquire(call).0,
            LockOp::Release(call) => self.release(call).0,
        }
    }

    /// The lock after a sequence of operations.
    pub open spec fn run(self, ops: Seq<LockOp>) -> CallLockView
        decreases ops.len(),
    {
        if ops.len() == 0 {
            self
        } else {
            self.run(ops.drop_last()).apply(ops.last())
        }
    }
}

/// Every operation keeps the lock well formed.
pub proof fn lemma_apply_keeps_wf(lock: CallLockView, op: LockOp)
    requires
        lock.wf(),
    ensures
        lock.apply(op).wf(),
{
    match op {
        LockOp::Acquire(call) => {
            if !lock.knows(call) && !(lock.holder is None && lock.waiting.len() == 0) {
                let after = lock.waiting.push(call);
                assert forall|i: int, j: int|
                    0 <= i < after.len() && 0 <= j < after.len() && i != j implies after[i]
                    != after[j] by {
                    if i < lock.waiting.len() {
                        assert(lock.waiting.contains(lock.waiting[i]));
                    }
                    if j < lock.waiting.len() {
                        assert(lock.waiting.contains(lock.waiting[j]));
                    }
                }
                if lock.holder is Some && after.contains(lock.holder->0) {
                    let k = choose|k: int| 0 <= k < after.len() && after[k] == lock.holder->0;
                    if k < lock.waiting.len() {
                        assert(lock.waiting.contains(lock.waiting[k]));
                    }
                }
            }
        },
        LockOp::Release(call) => {
            if lock.holder == Some(call) {
                if lock.waiting.len() > 0 {
                    let after = lock.waiting.drop_first();
                    assert forall|i: int, j: int|
                        0 <= i < after.len() && 0 <= j < after.len() && i != j implies after[i]
                        != after[j] by {
                        assert(after[i] == lock.waiting[i + 1]);
                        assert(after[j] == lock.waiting[j + 1]);
                    }
                    if after.contains(lock.waiting[0]) {
                        let k = choose|k: int| 0 <= k < after.len() && after[k] == lock.waiting[0];
                        assert(lock.waiting[k + 1] == lock.waiting[0]);
                    }
                }
            } else {
                let at = position(lock.waiting, call);
                lemma_position_bounds(lock.waiting, call);
                if at < lock.waiting.len() {
                    let after = lock.waiting.remove(at);
                    assert forall|i: int, j: int|
                        0 <= i < after.len() && 0 <= j < after.len() && i != j implies after[i]
                        != after[j] by {
                        let a = if i < at { i } else { i + 1 };
                        let b = if j < at { j } else { j + 1 };
                        assert(after[i] == lock.waiting[a]);
                        assert(after[j] == lock.waiting[b]);
                    }
                    if lock.holder is Some && after.contains(lock.holder->0) {
                        let k = choose|k: int| 0 <= k < after.len() && after[k] == lock.holder->0;
                        let a = if k < at { k } else { k + 1 };
                        assert(lock.waiting[a] == lock.holder->0);
                        assert(lock.waiting.contains(lock.waiting[a]));
                    }
                }
            }
        },
    }
}

proof fn lemma_position_bounds(s: Seq<u64>, x: u64)
    ensures
        0 <= position(s, x) <= s.len(),
        position(s, x) < s.len() ==> s[position(s, x)] == x,
        position(s, x) < s.len() <==> s.contains(x),
    decreases s.len(),
{
    if s.len() > 0 && s[0] != x {
        lemma_position_bounds(s.drop_first(), x);
        let rest = s.drop_first();
        if rest.contains(x) {
            let k = choose|k: int| 0 <= k < rest.len() && rest[k] == x;
            assert(s[k + 1] == x);
        }
        if s.contains(x) {
            let k = choose|k: int| 0 <= k < s.len() && s[k] == x;
            assert(rest[k - 1] == x);
        }
    }
}

/// Whatever calls do to a lock that started free, it stays well formed: it
/// has one holder at most, and nobody waits while it is free.
pub proof fn lemma_run_keeps_wf(ops: Seq<LockOp>)
    ensures
        (CallLockView { holder: None, waiting: Seq::empty() }).run(ops).wf(),
    decreases ops.len(),
{
    let free = CallLockView { holder: None, waiting: Seq::<u64>::empty() };
    if ops.len() > 0 {
        lemma_run_keeps_wf(ops.drop_last());
        lemma_apply_keeps_wf(free.run(ops.drop_last()), ops.last());
    }
}

/// Two calls never hold the lock at once: while `a` holds it, a request by
/// another call `b` leaves `a` the holder and `b` without the lock, and `b`
/// can become the holder only through a release by `a`.
pub proof fn lemma_holder_is_exclusive(lock: CallLockView, a: u64, b: u64, op: LockOp)
    requires
        lock.wf(),
        lock.holder == Some(a),
        a != b,
    ensures
        lock.acquire(b).0.holder == Some(a),
        lock.acquire(b).1 != Admission::Granted,
        lock.apply(op).holder == Some(b) ==> op == LockOp::Release(a),
{
}

/// Waiting calls are served in arrival order: a release by the holder hands
/// the lock to the call that has waited longest, and the others keep their order.
pub proof fn lemma_queue_is_first_come_first_served(lock: CallLockView, a: u64)
    requires
        lock.wf(),
        lock.holder == Some(a),
        lock.waiting.len() > 0,
    ensures
        lock.release(a).1 == Some(lock.waiting[0]),
        lock.release(a).0.holder == Some(lock.waiting[0]),
        lock.release(a).0.waiting == lock.waiting.drop_first(),
{
}

/// A call that asks while the lock is taken joins the end of the queue.
pub proof fn lemma_late_caller_waits_last(lock: CallLockView, call: u64)
    requires
        lock.wf(),
        lock.holder is Some,
        !lock.knows(call),
    ensures
        lock.acquire(call).1 == Admission::Queued,
        lock.acquire(call).0.waiting == lock.waiting.push(call),
        lock.acquire(call).0.holder == lock.holder,
{
}

/// What one call does to the lock leaves every other call where it was or
/// moves it forward: a holder stays the holder, and a waiting call keeps
/// waiting or becomes the holder.
pub proof fn lemma_others_keep_their_place(lock: CallLockView, a: u64, op: LockOp)
    requires
        lock.wf(),
        lock.knows(a),
        op != LockOp::Release(a),
    ensures
        lock.apply(op).knows(a),
        lock.holder == Some(a) ==> lock.apply(op).holder == Some(a),
{
    match op {
        LockOp::Acquire(b) => {
            if lock.waiting.contains(a) {
                let k = choose|k: int| 0 <= k < lock.waiting.len() && lock.waiting[k] == a;
                assert(lock.waiting.push(b)[k] == a);
            }
        },
        LockOp::Release(b) => {
            if lock.holder == Some(b) {
                let k = choose|k: int| 0 <= k < lock.waiting.len() && lock.waiting[k] == a;
                if k > 0 {
                    assert(lock.waiting.drop_first()[k - 1] == a);
                }
            } else {
                let at = position(lock.waiting, b);
                lemma_position_bounds(lock.waiting, b);
                if at < lock.waiting.len() && lock.waiting.contains(a) {
                    let k = choose|k: int| 0 <= k < lock.waiting.len() && lock.waiting[k] == a;
                    let after = lock.waiting.remove(at);
                    if k < at {
                        assert(after[k] == a);
                    } else {
                        assert(after[k - 1] == a);
                    }
                }
            }
        },
    }
}

/// A call that gave the lock up, or stopped waiting, is no longer known to it.
pub proof fn lemma_release_forgets(lock: CallLockView, a: u64)
    requires
        lock.wf(),
    ensures
        !lock.release(a).0.knows(a),
{
    if lock.holder == Some(a) {
        if lock.waiting.len() > 0 {
            let after = lock.waiting.drop_first();
            if after.contains(a) {
                let k = choose|k: int| 0 <= k < after.len() && after[k] == a;
                assert(lock.waiting[k + 1] == a);
                assert(lock.waiting.contains(a));
            }
        }
    } else {
        let at = position(lock.waiting, a);
        lemma_position_bounds(lock.waiting, a);
        if at < lock.waiting.len() {
            let after = lock.waiting.remove(at);
            if after.contains(a) {
                let k = choose|k: int| 0 <= k < after.len() && after[k] == a;
                let j = if k < at { k } else { k + 1 };
                assert(lock.waiting[j] == a);
            }
        }
    }
}

} // verus!
