//! The dispatcher: a fixed set of workers, one mailbox per worker, a
//! round-robin cursor and a request counter.
//!
//! The pool owns every mailbox's sending end for its whole lifetime. The
//! receiving ends are retained at construction and handed out once, so that
//! the caller can transfer each into the thread that will run that worker's
//! receive loop (the pool itself spawns no threads). A single caller owns
//! the pool; dispatch is not meant for unsynchronized concurrent callers.

use vstd::prelude::*;
use std::sync::mpsc::Receiver;
use std::sync::mpsc::Sender;

use crate::chan::make_channel;
use crate::chan::send_message;
use crate::message::Message;
use crate::model::PoolModel;
use crate::model::dispatch_lost;
use crate::model::dispatch_ok;
use crate::model::fresh_pool;

verus! {

/// Why a pool operation failed.
#[derive(Clone, Copy, Debug, PartialEq, Eq, Structural)]
pub enum PoolError {
    /// The requested worker count is zero, or too large for the pool's
    /// counter width.
    InvalidWorkerCount,
    /// The dispatch selected a mailbox whose receiving end is gone: its
    /// worker has already terminated, so the job could not be delivered.
    MailboxClosed,
}

/// A fixed-size, round-robin worker pool over jobs of type `T`.
///
/// The pool never looks inside a job: it only routes each one into a
/// mailbox. Running the jobs is the receiving workers' business.
#[verifier::reject_recursive_types(T)]
pub struct ThreadPool<T> {
    cap: u32,
    current_worker: u32,
    total_request: u32,
    txs: Vec<Sender<Message<T>>>,
    rxs: Vec<Receiver<Message<T>>>,
    sent: Ghost<Seq<Seq<Message<T>>>>,
}

impl<T> View for ThreadPool<T> {
    type V = PoolModel<T>;

    closed spec fn view(&self) -> PoolModel<T> {
        PoolModel {
            cap: self.cap as nat,
            cursor: self.current_worker as nat,
            counter: self.total_request as nat,
            sent: self.sent@,
        }
    }
}

impl<T> ThreadPool<T> {
    /// Structural validity: a valid abstract state and one sending end per
    /// worker. Constructors establish it; every method preserves it.
    pub closed spec fn wf(&self) -> bool {
        &&& self@.wf()
        &&& self.txs@.len() == self@.cap
    }

    /// How many receiving ends the pool still retains for hand-over to
    /// worker threads: the worker count until [`Self::take_receivers`] is
    /// called, 0 afterwards.
    pub closed spec fn pending_receivers(&self) -> nat {
        self.rxs@.len()
    }

    /// Builds a pool of `size` workers: `size` independent mailboxes, the
    /// cursor and the request counter at zero, no job delivered yet.
    /// Rejects a worker count of zero (such a pool could never dispatch)
    /// and one beyond the counter width.
    pub fn new(size: usize) -> (r: Result<ThreadPool<T>, PoolError>)
        ensures
            size == 0 || size > u32::MAX ==> r == Err::<ThreadPool<T>, PoolError>(
                PoolError::InvalidWorkerCount,
            ),
            0 < size <= u32::MAX ==> (r matches Ok(p) && p.wf() && p@ == fresh_pool::<T>(
                size as nat,
            ) && p.pending_receivers() == size),
    {
        if size == 0 || size > u32::MAX as usize {
            return Err(PoolError::InvalidWorkerCount);
        }
        let mut txs: Vec<Sender<Message<T>>> = Vec::new();
        let mut rxs: Vec<Receiver<Message<T>>> = Vec::new();
        let mut i: usize = 0;
        while i < size
            invariant
                i <= size,
                txs@.len() == i,
                rxs@.len() == i,
            decreases size - i,
        {
            let (tx, rx) = make_channel::<Message<T>>();
            txs.push(tx);
            rxs.push(rx);
            i = i + 1;
        }
        let pool = ThreadPool {
            cap: size as u32,
            current_worker: 0,
            total_request: 0,
            txs,
            rxs,
            sent: Ghost(Seq::new(size as nat, |j: int| Seq::empty())),
        };
        Ok(pool)
    }

    /// Dispatches one job: advances the cursor by one position (wrapping at
    /// the capacity, and advanced before use, so the `j`-th dispatch lands
    /// on worker `j % cap`), delivers the job into the selected mailbox,
    /// and returns the new total-dispatched count. If the selected mailbox
    /// is closed — its worker is gone — the job is not delivered, the
    /// counter does not move, and the failure is reported to the caller.
    pub fn execute(&mut self, f: T) -> (r: Result<u32, PoolError>)
        requires
            old(self).wf(),
            old(self)@.counter < u32::MAX,
        ensures
            final(self).wf(),
            final(self).pending_receivers() == old(self).pending_receivers(),
            r matches Ok(c) ==> final(self)@ == dispatch_ok(old(self)@, f) && c == old(
                self,
            )@.counter + 1,
            r matches Err(e) ==> e == PoolError::MailboxClosed && final(self)@ == dispatch_lost(
                old(self)@,
            ),
    {
        self.current_worker = self.current_worker + 1;
        if self.current_worker == self.cap {
            self.current_worker = 0;
        }
        let idx = self.current_worker as usize;
        let ok = send_message(&self.txs[idx], Message::Job(f));
        if ok {
            self.total_request = self.total_request + 1;
            self.sent = Ghost(
                self.sent@.update(idx as int, self.sent@[idx as int].push(Message::Job(f))),
            );
            Ok(self.total_request)
        } else {
            Err(PoolError::MailboxClosed)
        }
    }

    /// Broadcasts the shutdown sentinel: exactly one `Exit` envelope to
    /// every mailbox, in index order, unconditionally. Fire-and-forget: it
    /// does not wait for any worker, and a mailbox whose receiver is
    /// already gone is skipped silently (that worker has terminated, which
    /// is what the sentinel asks for). Cursor and counter are untouched.
    pub fn stop(&mut self)
        requires
            old(self).wf(),
        ensures
            final(self).wf(),
            final(self).pending_receivers() == old(self).pending_receivers(),
            final(self)@.cap == old(self)@.cap,
            final(self)@.cursor == old(self)@.cursor,
            final(self)@.counter == old(self)@.counter,
            final(self)@.sent.len() == old(self)@.sent.len(),
            forall|i: int|
                0 <= i < old(self)@.sent.len() ==> final(self)@.sent[i] == old(self)@.sent[i].push(
                    Message::<T>::Exit,
                ) || final(self)@.sent[i] == old(self)@.sent[i],
    {
        let ghost pre = self@;
        let ghost rx0 = self.pending_receivers();
        let cap = self.cap as usize;
        let mut i: usize = 0;
        while i < cap
            invariant
                i <= cap,
                self.wf(),
                cap == self@.cap,
                self@.cap == pre.cap,
                self@.cursor == pre.cursor,
                self@.counter == pre.counter,
                self.pending_receivers() == rx0,
                self@.sent.len() == pre.sent.len(),
                forall|j: int|
                    0 <= j < i ==> self@.sent[j] == pre.sent[j].push(Message::<T>::Exit)
                        || self@.sent[j] == pre.sent[j],
                forall|j: int| i <= j < pre.sent.len() ==> self@.sent[j] == pre.sent[j],
            decreases cap - i,
        {
            let ok = send_message(&self.txs[i], Message::Exit);
            if ok {
                self.sent = Ghost(
                    self.sent@.update(i as int, self.sent@[i as int].push(Message::Exit)),
                );
            }
            i = i + 1;
        }
    }

    /// Hands out the retained receiving ends, one per worker in index
    /// order, leaving none behind: the caller transfers each into the
    /// thread that will own it exclusively and drive that worker's receive
    /// loop. The dispatching state is untouched.
    pub fn take_receivers(&mut self) -> (r: Vec<Receiver<Message<T>>>)
        requires
            old(self).wf(),
        ensures
            final(self).wf(),
            final(self)@ == old(self)@,
            r@.len() == old(self).pending_receivers(),
            final(self).pending_receivers() == 0,
    {
        let mut r: Vec<Receiver<Message<T>>> = Vec::new();
        core::mem::swap(&mut r, &mut self.rxs);
        r
    }
}

} // verus!
