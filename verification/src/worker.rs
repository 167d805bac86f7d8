//! What a worker makes of its mailbox: the jobs it executes, in what order,
//! and when it stops.
//!
//! A worker pulls the messages of one mailbox in delivery order and stops at
//! the first shutdown sentinel (or when the mailbox is exhausted). These spec
//! functions describe that behaviour over the delivered message sequence, and
//! the lemmas state the pool's ordering and termination guarantees over them.

use vstd::prelude::*;
use vstd::pervasive::arbitrary;

use crate::message::Message;
use crate::message::WorkerAction;
use crate::message::worker_step;

verus! {

/// The payload of a job envelope.
pub open spec fn job_of<T>(msg: Message<T>) -> T
    recommends
        msg is Job,
{
    match msg {
        Message::Job(f) => f,
        Message::Exit => arbitrary(),
    }
}

/// Position of the first shutdown sentinel in a mailbox's delivered
/// messages, or the length of the sequence when none was delivered.
pub open spec fn first_exit<T>(msgs: Seq<Message<T>>) -> int
    decreases msgs.len(),
{
    if msgs.len() == 0 {
        0
    } else if msgs.first() is Exit {
        0
    } else {
        1 + first_exit(msgs.drop_first())
    }
}

/// The jobs a worker executes, in order, when it drains a mailbox whose
/// delivered messages are `msgs`: the payloads of the job envelopes that
/// precede the first shutdown sentinel.
pub open spec fn executed<T>(msgs: Seq<Message<T>>) -> Seq<T>
    decreases msgs.len(),
{
    if msgs.len() == 0 {
        Seq::empty()
    } else {
        match msgs.first() {
            Message::Exit => Seq::empty(),
            Message::Job(f) => seq![f] + executed(msgs.drop_first()),
        }
    }
}

/// What `executed` and `first_exit` mean, spelled out by position: every
/// message before the first sentinel is a job, each is executed exactly at
/// its mailbox position, and nothing at or after the sentinel is executed.
pub proof fn lemma_executed_characterized<T>(msgs: Seq<Message<T>>)
    ensures
        0 <= first_exit(msgs) <= msgs.len(),
        first_exit(msgs) < msgs.len() ==> msgs[first_exit(msgs)] is Exit,
        forall|i: int| 0 <= i < first_exit(msgs) ==> msgs[i] is Job,
        executed(msgs).len() == first_exit(msgs),
        forall|i: int| 0 <= i < first_exit(msgs) ==> executed(msgs)[i] == job_of(msgs[i]),
    decreases msgs.len(),
{
    if msgs.len() == 0 {
    } else if msgs.first() is Exit {
    } else {
        let rest = msgs.drop_first();
        lemma_executed_characterized(rest);
        assert forall|i: int| 0 <= i < first_exit(msgs) implies msgs[i] is Job by {
            if i > 0 {
                assert(rest[i - 1] is Job);
            }
        }
        assert forall|i: int| 0 <= i < first_exit(msgs) implies executed(msgs)[i] == job_of(
            msgs[i],
        ) by {
            if i > 0 {
                assert(executed(rest)[i - 1] == job_of(rest[i - 1]));
                assert(executed(msgs)[i] == executed(rest)[i - 1]);
            }
        }
    }
}

/// Jobs delivered to the same mailbox execute in delivery order: the job at
/// mailbox position `i` is executed as the `i`-th job, the one at position
/// `j` as the `j`-th, and `i < j` — the earlier delivery completes before
/// the later one begins.
pub proof fn lemma_fifo_order<T>(msgs: Seq<Message<T>>, i: int, j: int)
    requires
        0 <= i < j < first_exit(msgs),
    ensures
        executed(msgs)[i] == job_of(msgs[i]),
        executed(msgs)[j] == job_of(msgs[j]),
        j < executed(msgs).len(),
{
    lemma_executed_characterized(msgs);
}

/// Once a shutdown sentinel is delivered, the worker reaches its terminal
/// state within a bounded number of steps: it handles at most the `e`
/// messages before the sentinel, observes a sentinel no later than position
/// `e`, and exits its loop there.
pub proof fn lemma_shutdown_terminates<T>(msgs: Seq<Message<T>>, e: int)
    requires
        0 <= e < msgs.len(),
        msgs[e] is Exit,
    ensures
        first_exit(msgs) <= e,
        msgs[first_exit(msgs)] is Exit,
        executed(msgs).len() <= e,
{
    lemma_executed_characterized(msgs);
    if e < first_exit(msgs) {
        assert(msgs[e] is Job);
    }
}

/// A job delivered after a shutdown sentinel is never executed: every
/// executed job comes from a mailbox position strictly before the sentinel
/// at `e`, so the envelope at position `k > e` contributes nothing.
pub proof fn lemma_late_job_not_executed<T>(msgs: Seq<Message<T>>, e: int, k: int)
    requires
        0 <= e < k < msgs.len(),
        msgs[e] is Exit,
    ensures
        executed(msgs).len() <= e < k,
        forall|p: int| 0 <= p < executed(msgs).len() ==> executed(msgs)[p] == job_of(msgs[p]),
{
    lemma_shutdown_terminates(msgs, e);
    lemma_executed_characterized(msgs);
}

/// Drains an already-delivered message sequence exactly as a worker's
/// receive loop does — one `worker_step` per message, stopping at the first
/// shutdown sentinel — and returns the jobs it would execute, in execution
/// order.
pub fn collect_executed<T>(msgs: Vec<Message<T>>) -> (r: Vec<T>)
    ensures
        r@ == executed(msgs@),
{
    let mut queue = msgs;
    let mut r: Vec<T> = Vec::new();
    let ghost all = queue@;
    let mut stopped = false;
    while !stopped && queue.len() > 0
        invariant
            !stopped ==> r@ + executed(queue@) == executed(all),
            stopped ==> r@ == executed(all),
        decreases queue@.len(),
    {
        let ghost pre = queue@;
        let m = queue.remove(0);
        proof {
            assert(queue@ =~= pre.drop_first());
        }
        match worker_step(m) {
            WorkerAction::Stop => {
                stopped = true;
            },
            WorkerAction::Run(f) => {
                r.push(f);
                assert(r@ + executed(queue@) =~= executed(all));
            },
        }
    }
    if !stopped {
        assert(r@ + executed(queue@) =~= r@);
    }
    r
}

} // verus!
