//! The message envelope carried on each worker's mailbox, and the decision
//! a worker takes on receiving one.

use vstd::prelude::*;

verus! {

/// One envelope on a mailbox: either a unit of work or the shutdown
/// sentinel.
pub enum Message<T> {
    /// Shutdown sentinel: the receiving worker must exit its loop at once.
    Exit,
    /// One unit of work, to be run exactly once by the receiving worker.
    Job(T),
}

/// What a worker does with one received message: run the carried job and
/// keep going, or stop at once.
pub enum WorkerAction<T> {
    /// Exit the receive loop immediately; process no further messages.
    Stop,
    /// Run this job to completion, then go back to waiting for the next
    /// message.
    Run(T),
}

/// The decision a worker takes on one message.
pub open spec fn step_of<T>(msg: Message<T>) -> WorkerAction<T> {
    match msg {
        Message::Exit => WorkerAction::Stop,
        Message::Job(f) => WorkerAction::Run(f),
    }
}

/// One turn of the worker loop: decides what the worker does with the
/// message it just pulled from its mailbox. The caller owns the loop (and
/// the thread it runs on): on `Run(f)` it invokes `f` and continues, on
/// `Stop` it exits the loop.
pub fn worker_step<T>(msg: Message<T>) -> (a: WorkerAction<T>)
    ensures
        a == step_of(msg),
{
    match msg {
        Message::Exit => WorkerAction::Stop,
        Message::Job(f) => WorkerAction::Run(f),
    }
}

} // verus!
