//! Trusted declarations of the std mpsc channel pieces the pool is built
//! on. Each mailbox is one such channel: unbounded, FIFO, one sender held
//! by the pool and one receiver handed to a worker.

use vstd::prelude::*;
use std::sync::mpsc::Receiver;
use std::sync::mpsc::Sender;

verus! {

/// std's `mpsc::Sender`, declared so that it can stand in fields and
/// signatures; the verifier sees nothing inside a value of it.
#[verifier::external_type_specification]
#[verifier::external_body]
#[verifier::reject_recursive_types(T)]
pub struct ExSender<T>(Sender<T>);

/// std's `mpsc::Receiver`, declared so that it can stand in fields and
/// signatures; the verifier sees nothing inside a value of it.
#[verifier::external_type_specification]
#[verifier::external_body]
#[verifier::reject_recursive_types(T)]
pub struct ExReceiver<T>(Receiver<T>);

/// Relies on std::sync::mpsc::channel: returns the sending and receiving
/// ends of one new channel — unbounded, and FIFO from the one sender the
/// pool keeps to the one receiver a worker takes.
#[verifier::external_body]
pub(crate) fn make_channel<T>() -> (Sender<T>, Receiver<T>) {
    std::sync::mpsc::channel()
}

/// Relies on std::sync::mpsc::Sender::send: enqueues the message for the
/// receiving end and succeeds exactly when that end has not been dropped;
/// on failure the message is not delivered. Whether the receiver is still
/// alive depends on another thread, so nothing more can be promised of the
/// returned flag.
#[verifier::external_body]
pub(crate) fn send_message<T>(tx: &Sender<T>, msg: T) -> (ok: bool) {
    tx.send(msg).is_ok()
}

} // verus!
