//! A bounded worker pool: a fixed number of long-lived threads that pull
//! no-argument jobs from one shared FIFO queue and run each to completion,
//! with an explicit, idempotent teardown that joins every worker.

pub mod model;
pub mod pool;
pub mod queue;

pub use pool::DispatchExit;
pub use pool::SubmitError;
pub use pool::ThreadPool;
pub use pool::Worker;
pub use pool::dispatch;
pub use queue::Job;
pub use queue::SharedReceiver;
pub use queue::NextJob;
pub use queue::job_channel;
