//! A fixed-size, round-robin worker pool.
//!
//! The pool owns one unbounded mailbox per worker. A single dispatching
//! caller hands jobs to the pool one at a time; each dispatch selects a
//! worker round-robin, enqueues the job into that worker's mailbox, and
//! returns a monotonically increasing request counter. Shutdown broadcasts
//! a sentinel to every mailbox. Worker threads themselves live outside the
//! library: each one owns a mailbox's receiving end and drives
//! [`message::worker_step`] on each message it pulls.

mod chan;
pub mod message;
pub mod model;
pub mod pool;
pub mod worker;

pub use message::Message;
pub use message::WorkerAction;
pub use message::worker_step;
pub use pool::PoolError;
pub use pool::ThreadPool;
