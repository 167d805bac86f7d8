//! The pool as the contracts see it: capacity, round-robin cursor, request
//! counter, and the messages delivered so far into each worker's mailbox.
//!
//! A successful dispatch is one step of [`dispatch_ok`]; a run of dispatches
//! from a fresh pool is [`dispatch_seq`]. The lemmas state the counter and
//! round-robin guarantees over whole runs.

use vstd::prelude::*;
use vstd::arithmetic::div_mod::lemma_fundamental_div_mod;
use vstd::arithmetic::div_mod::lemma_fundamental_div_mod_converse;
use vstd::arithmetic::div_mod::lemma_small_mod;

use crate::message::Message;

verus! {

/// Abstract state of a pool: `sent[i]` is the sequence of envelopes
/// delivered so far into worker `i`'s mailbox, in delivery order.
pub struct PoolModel<T> {
    /// Number of workers, fixed at construction.
    pub cap: nat,
    /// Round-robin cursor: the index of the worker that received the most
    /// recent job (0 on a fresh pool).
    pub cursor: nat,
    /// Total number of successfully dispatched jobs.
    pub counter: nat,
    /// Per-mailbox delivery logs, indexed by worker.
    pub sent: Seq<Seq<Message<T>>>,
}

impl<T> PoolModel<T> {
    /// Structural validity: at least one worker, the cursor in range, one
    /// delivery log per worker.
    pub open spec fn wf(self) -> bool {
        &&& self.cap > 0
        &&& self.cursor < self.cap
        &&& self.sent.len() == self.cap
    }
}

/// The cursor is advanced before it is used, wrapping at the capacity; so
/// the first dispatch of a fresh pool goes to worker 1 when the capacity
/// exceeds 1 (and the `j`-th overall to worker `j % cap`).
pub open spec fn next_cursor(cursor: nat, cap: nat) -> nat
    recommends
        cursor < cap,
{
    if cursor + 1 == cap {
        0 as nat
    } else {
        (cursor + 1) as nat
    }
}

/// The worker index the next dispatch will deliver to.
pub open spec fn dispatch_target<T>(m: PoolModel<T>) -> nat {
    next_cursor(m.cursor, m.cap)
}

/// One successful dispatch of `job`: the cursor advances round-robin, the
/// job envelope is appended to the selected mailbox's log, and the counter
/// grows by exactly one.
pub open spec fn dispatch_ok<T>(m: PoolModel<T>, job: T) -> PoolModel<T>
    recommends
        m.wf(),
{
    let idx = next_cursor(m.cursor, m.cap) as int;
    PoolModel {
        cap: m.cap,
        cursor: next_cursor(m.cursor, m.cap),
        counter: m.counter + 1,
        sent: m.sent.update(idx, m.sent[idx].push(Message::Job(job))),
    }
}

/// A dispatch whose delivery failed (the selected mailbox was closed): the
/// cursor still advances, but no envelope is delivered and the counter is
/// unchanged.
pub open spec fn dispatch_lost<T>(m: PoolModel<T>) -> PoolModel<T> {
    PoolModel {
        cap: m.cap,
        cursor: next_cursor(m.cursor, m.cap),
        counter: m.counter,
        sent: m.sent,
    }
}

/// A freshly constructed pool of `n` workers: cursor and counter at zero,
/// every mailbox empty.
pub open spec fn fresh_pool<T>(n: nat) -> PoolModel<T> {
    PoolModel { cap: n, cursor: 0, counter: 0, sent: Seq::new(n, |i: int| Seq::empty()) }
}

/// The pool state after dispatching `jobs`, in order, to a fresh pool of
/// `n` workers, every delivery succeeding.
pub open spec fn dispatch_seq<T>(n: nat, jobs: Seq<T>) -> PoolModel<T>
    decreases jobs.len(),
{
    if jobs.len() == 0 {
        fresh_pool(n)
    } else {
        dispatch_ok(dispatch_seq(n, jobs.drop_last()), jobs.last())
    }
}

/// Dispatching preserves validity, and never changes the capacity.
pub proof fn lemma_dispatch_seq_wf<T>(n: nat, jobs: Seq<T>)
    requires
        n > 0,
    ensures
        dispatch_seq::<T>(n, jobs).cap == n,
        dispatch_seq::<T>(n, jobs).wf(),
    decreases jobs.len(),
{
    if jobs.len() > 0 {
        lemma_dispatch_seq_wf::<T>(n, jobs.drop_last());
    }
}

/// The counter counts dispatches: after `k` successful dispatches it reads
/// exactly `k`, whatever the capacity and whatever the jobs.
pub proof fn lemma_dispatch_counter<T>(n: nat, jobs: Seq<T>)
    ensures
        dispatch_seq::<T>(n, jobs).counter == jobs.len(),
    decreases jobs.len(),
{
    if jobs.len() > 0 {
        lemma_dispatch_counter::<T>(n, jobs.drop_last());
    }
}

/// The counter returned by the `i`-th dispatch equals `i`: after any prefix
/// of `i` dispatches the counter — which the `i`-th dispatch returns —
/// reads exactly `i`.
pub proof fn lemma_counter_of_each_dispatch<T>(n: nat, jobs: Seq<T>)
    ensures
        forall|i: int|
            0 <= i <= jobs.len() ==> #[trigger] dispatch_seq(n, jobs.take(i)).counter == i,
{
    assert forall|i: int|
        0 <= i <= jobs.len() implies #[trigger] dispatch_seq(n, jobs.take(i)).counter == i by {
        lemma_dispatch_counter::<T>(n, jobs.take(i));
    }
}

/// Advancing from the cursor position reached after `k - 1` dispatches
/// lands on `k % n`.
proof fn lemma_next_cursor_mod(k: nat, n: nat)
    requires
        n > 0,
        k >= 1,
    ensures
        next_cursor(((k - 1) as nat) % n, n) == k % n,
{
    let r = ((k - 1) as int) % (n as int);
    lemma_fundamental_div_mod((k - 1) as int, n as int);
    let q = ((k - 1) as int) / (n as int);
    if r + 1 == n {
        assert((q + 1) * (n as int) == (n as int) * q + (n as int)) by (nonlinear_arith);
        lemma_fundamental_div_mod_converse(k as int, n as int, q + 1, 0);
    } else {
        assert(q * (n as int) == (n as int) * q) by (nonlinear_arith);
        lemma_fundamental_div_mod_converse(k as int, n as int, q, r + 1);
    }
}

/// Round-robin: after `k` dispatches to a fresh pool of `n` workers the
/// cursor stands at `k % n`.
pub proof fn lemma_round_robin_cursor<T>(n: nat, jobs: Seq<T>)
    requires
        n > 0,
    ensures
        dispatch_seq::<T>(n, jobs).cursor == jobs.len() % n,
    decreases jobs.len(),
{
    if jobs.len() == 0 {
        lemma_small_mod(0, n);
    } else {
        lemma_dispatch_seq_wf::<T>(n, jobs.drop_last());
        lemma_round_robin_cursor::<T>(n, jobs.drop_last());
        lemma_next_cursor_mod(jobs.len(), n);
    }
}

/// Round-robin selection: the `j`-th dispatch (counting from 1) delivers to
/// worker `j % n` — the cursor is advanced before use, so the first
/// dispatch of a fresh pool skips worker 0 whenever `n > 1`.
pub proof fn lemma_round_robin_targets<T>(n: nat, jobs: Seq<T>)
    requires
        n > 0,
    ensures
        forall|j: int|
            1 <= j <= jobs.len() ==> dispatch_target(
                #[trigger] dispatch_seq(n, jobs.take(j - 1)),
            ) == j % (n as int),
{
    assert forall|j: int|
        1 <= j <= jobs.len() implies dispatch_target(
        #[trigger] dispatch_seq(n, jobs.take(j - 1)),
    ) == j % (n as int) by {
        lemma_dispatch_seq_wf::<T>(n, jobs.take(j - 1));
        lemma_round_robin_cursor::<T>(n, jobs.take(j - 1));
        lemma_next_cursor_mod(j as nat, n);
    }
}

/// The envelopes worker `w` receives when `jobs` are dispatched, in order,
/// to a fresh pool of `n` workers: exactly the jobs whose 1-based dispatch
/// index `j` has `j % n == w`, each wrapped as a `Job`, in dispatch order.
pub open spec fn routed_jobs<T>(n: nat, jobs: Seq<T>, w: int) -> Seq<Message<T>>
    decreases jobs.len(),
{
    if jobs.len() == 0 {
        Seq::empty()
    } else if (jobs.len() as int) % (n as int) == w {
        routed_jobs(n, jobs.drop_last(), w).push(Message::Job(jobs.last()))
    } else {
        routed_jobs(n, jobs.drop_last(), w)
    }
}

/// No message crosses between mailboxes: after dispatching `jobs` to a
/// fresh pool of `n` workers, mailbox `w` holds exactly the jobs routed to
/// worker `w`, in dispatch order, and nothing else.
pub proof fn lemma_mailbox_contents<T>(n: nat, jobs: Seq<T>)
    requires
        n > 0,
    ensures
        forall|w: int|
            0 <= w < n ==> dispatch_seq(n, jobs).sent[w] == #[trigger] routed_jobs(n, jobs, w),
    decreases jobs.len(),
{
    if jobs.len() == 0 {
    } else {
        let rest = jobs.drop_last();
        lemma_mailbox_contents::<T>(n, rest);
        lemma_dispatch_seq_wf::<T>(n, rest);
        lemma_round_robin_cursor::<T>(n, rest);
        lemma_next_cursor_mod(jobs.len(), n);
        let m = dispatch_seq::<T>(n, rest);
        let t = next_cursor(m.cursor, m.cap) as int;
        assert(t == (jobs.len() as int) % (n as int));
        assert forall|w: int|
            0 <= w < n implies dispatch_seq(n, jobs).sent[w] == #[trigger] routed_jobs(
            n,
            jobs,
            w,
        ) by {
            assert(m.sent[w] == routed_jobs(n, rest, w));
        }
    }
}

} // verus!
