use std::cell::Cell;
use std::rc::Rc;
use std::sync::mpsc::Receiver;
use std::sync::mpsc::TryRecvError;

use workpool::Message;
use workpool::PoolError;
use workpool::ThreadPool;
use workpool::WorkerAction;
use workpool::worker::collect_executed;
use workpool::worker_step;

/// Pulls every message currently sitting in a mailbox, without blocking.
fn drain<T>(rx: &Receiver<T>) -> Vec<T> {
    let mut out = Vec::new();
    loop {
        match rx.try_recv() {
            Ok(m) => out.push(m),
            Err(TryRecvError::Empty) => return out,
            Err(TryRecvError::Disconnected) => return out,
        }
    }
}

/// The job ids in a drained mailbox, in delivery order; panics on a sentinel.
fn job_ids(msgs: Vec<Message<u32>>) -> Vec<u32> {
    let mut ids = Vec::new();
    for m in msgs {
        match m {
            Message::Job(v) => ids.push(v),
            Message::Exit => panic!("unexpected shutdown sentinel"),
        }
    }
    ids
}

#[test]
fn new_rejects_zero_workers() {
    let r = ThreadPool::<u32>::new(0);
    assert_eq!(r.err(), Some(PoolError::InvalidWorkerCount));
}

#[test]
fn counter_returns_dispatch_sequence() {
    let mut pool = ThreadPool::<u32>::new(2).unwrap();
    for i in 1u32..=5 {
        assert_eq!(pool.execute(i * 10).unwrap(), i);
    }
}

#[test]
fn round_robin_skips_worker_zero_first() {
    let mut pool = ThreadPool::<u32>::new(3).unwrap();
    let rxs = pool.take_receivers();
    assert_eq!(rxs.len(), 3);
    for id in 1u32..=7 {
        assert_eq!(pool.execute(id).unwrap(), id);
    }
    // The cursor advances before use: the j-th dispatch lands on worker j % 3.
    assert_eq!(job_ids(drain(&rxs[0])), vec![3, 6]);
    assert_eq!(job_ids(drain(&rxs[1])), vec![1, 4, 7]);
    assert_eq!(job_ids(drain(&rxs[2])), vec![2, 5]);
}

#[test]
fn single_worker_takes_every_job_in_order() {
    let mut pool = ThreadPool::<u32>::new(1).unwrap();
    let rxs = pool.take_receivers();
    for id in 1u32..=3 {
        assert_eq!(pool.execute(id).unwrap(), id);
    }
    assert_eq!(job_ids(drain(&rxs[0])), vec![1, 2, 3]);
}

#[test]
fn jobs_on_one_mailbox_run_in_send_order() {
    let mut pool = ThreadPool::<Box<dyn FnOnce()>>::new(1).unwrap();
    let rxs = pool.take_receivers();
    let log: Rc<Cell<u32>> = Rc::new(Cell::new(0));
    for digit in 1u32..=3 {
        let log = Rc::clone(&log);
        let count = pool
            .execute(Box::new(move || log.set(log.get() * 10 + digit)))
            .unwrap();
        assert_eq!(count, digit);
    }
    for job in collect_executed(drain(&rxs[0])) {
        job();
    }
    // Executing in send order writes the digits in dispatch order.
    assert_eq!(log.get(), 123);
}

#[test]
fn worker_step_runs_a_job_and_stops_on_the_sentinel() {
    match worker_step(Message::Job(9u32)) {
        WorkerAction::Run(v) => assert_eq!(v, 9),
        WorkerAction::Stop => panic!("a job must be run, not stop the worker"),
    }
    assert!(matches!(
        worker_step(Message::<u32>::Exit),
        WorkerAction::Stop
    ));
}

#[test]
fn stop_broadcasts_one_sentinel_per_mailbox() {
    let mut pool = ThreadPool::<u32>::new(3).unwrap();
    let rxs = pool.take_receivers();
    pool.stop();
    for rx in &rxs {
        let mut msgs = drain(rx);
        assert_eq!(msgs.len(), 1);
        let m = msgs.pop().unwrap();
        assert!(matches!(&m, Message::Exit));
        // Each worker's loop exits on its first step after shutdown.
        assert!(matches!(worker_step(m), WorkerAction::Stop));
    }
}

#[test]
fn job_dispatched_after_shutdown_never_runs() {
    let mut pool = ThreadPool::<Box<dyn FnOnce()>>::new(1).unwrap();
    let rxs = pool.take_receivers();
    pool.stop();
    let ran: Rc<Cell<bool>> = Rc::new(Cell::new(true));
    ran.set(false);
    let flag = Rc::clone(&ran);
    // The mailbox still accepts the job (its receiving end is alive), so the
    // dispatch itself succeeds; the job just sits behind the sentinel.
    assert_eq!(pool.execute(Box::new(move || flag.set(true))).unwrap(), 1);
    let executed = collect_executed(drain(&rxs[0]));
    assert_eq!(executed.len(), 0);
    assert!(!ran.get());
}

#[test]
fn dispatch_to_a_closed_mailbox_reports_the_failure() {
    let mut pool = ThreadPool::<u32>::new(1).unwrap();
    let rxs = pool.take_receivers();
    drop(rxs);
    assert_eq!(pool.execute(5), Err(PoolError::MailboxClosed));
    // The counter never moved, so a later successful-looking count cannot
    // appear: a second attempt fails the same way.
    assert_eq!(pool.execute(6), Err(PoolError::MailboxClosed));
    // Shutdown against closed mailboxes is still quiet.
    pool.stop();
}

#[test]
fn collect_executed_stops_at_the_first_sentinel() {
    let msgs = vec![
        Message::Job(1u32),
        Message::Job(2),
        Message::Exit,
        Message::Job(3),
    ];
    assert_eq!(collect_executed(msgs), vec![1, 2]);
}

#[test]
fn four_jobs_on_three_workers_all_run() {
    let mut pool = ThreadPool::<Box<dyn FnOnce()>>::new(3).unwrap();
    let rxs = pool.take_receivers();
    let counter: Rc<Cell<u32>> = Rc::new(Cell::new(0));
    for i in 1u32..=4 {
        let counter = Rc::clone(&counter);
        let count = pool
            .execute(Box::new(move || counter.set(counter.get() + 1)))
            .unwrap();
        assert_eq!(count, i);
    }
    pool.stop();
    for rx in &rxs {
        for job in collect_executed(drain(rx)) {
            job();
        }
    }
    assert_eq!(counter.get(), 4);
}
