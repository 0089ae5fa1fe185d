//! The job queue: an unbounded FIFO channel of jobs, whose single receiving
//! half is shared by all workers under one lock with the discipline
//! "acquire, attempt one receive, release".

use vstd::prelude::*;

verus! {

/// A no-argument unit of work. The wrapper carries, as a type invariant,
/// that the stored closure is ready to be called, so every job that reaches
/// a worker can be run without any further check.
pub struct Job<F: FnOnce()> {
    f: F,
}

impl<F: FnOnce()> Job<F> {
    #[verifier::type_invariant]
    spec fn callable(self) -> bool {
        self.f.requires(())
    }

    /// The closure this job will run.
    pub closed spec fn closure(self) -> F {
        self.f
    }

    /// Wrap a closure as a job. The closure's precondition must hold at
    /// submission time; it is the submitter's last chance to establish it.
    pub fn new(f: F) -> (job: Job<F>)
        requires
            f.requires(()),
    {
        Job { f }
    }

    /// Run the job to completion on the calling thread, consuming it; on
    /// return, the closure's own postcondition holds.
    pub fn run(self)
        ensures
            self.closure().ensures((), ()),
    {
        proof {
            use_type_invariant(&self);
        }
        let Job { f } = self;
        f();
    }
}

#[verifier::external_type_specification]
#[verifier::external_body]
#[verifier::reject_recursive_types(T)]
pub struct ExSender<T>(std::sync::mpsc::Sender<T>);

#[verifier::external_type_specification]
#[verifier::external_body]
#[verifier::reject_recursive_types(T)]
pub struct ExReceiver<T>(std::sync::mpsc::Receiver<T>);

#[verifier::external_type_specification]
#[verifier::external_body]
#[verifier::reject_recursive_types(T)]
pub struct ExMutex<T: ?Sized>(std::sync::Mutex<T>);

#[verifier::external_type_specification]
#[verifier::external_body]
#[verifier::reject_recursive_types(T)]
pub struct ExMutexGuard<'a, T: ?Sized + 'a>(std::sync::MutexGuard<'a, T>);

/// Relies on std::sync::mpsc::channel: returns the sending and receiving
/// halves of one new, unbounded queue; values arrive in the order one sender
/// sent them, and each sent value is delivered at most once.
#[verifier::external_body]
fn channel_pair<T>() -> (r: (std::sync::mpsc::Sender<T>, std::sync::mpsc::Receiver<T>)) {
    std::sync::mpsc::channel()
}

/// Relies on std::sync::Mutex::new: wraps a value in a fresh lock.
#[verifier::external_body]
fn new_mutex<T>(value: T) -> (r: std::sync::Mutex<T>) {
    std::sync::Mutex::new(value)
}

/// Relies on std::sync::mpsc::Sender::send: enqueues the value, keeping the
/// submission order of this sender; it fails only when the receiving half is
/// gone, and never blocks for long (the queue is unbounded).
#[verifier::external_body]
pub(crate) fn send_job<T>(sender: &std::sync::mpsc::Sender<T>, value: T) -> (accepted: bool) {
    match sender.send(value) {
        Ok(()) => true,
        Err(_) => false,
    }
}

/// Relies on std::sync::Mutex::lock: blocks until the lock is free and
/// returns its guard, or reports that the lock is poisoned and unusable.
#[verifier::external_body]
fn lock_receiver<'a, T>(mutex: &'a std::sync::Arc<std::sync::Mutex<T>>) -> (r: Option<
    std::sync::MutexGuard<'a, T>,
>) {
    match mutex.lock() {
        Ok(guard) => Some(guard),
        Err(_) => None,
    }
}

/// Relies on std::sync::mpsc::Receiver::recv: blocks for the next queued
/// value; it returns nothing only once every sending half is gone and the
/// queue has drained, after which no value can ever arrive again.
#[verifier::external_body]
fn receive_locked<'a, T>(guard: &std::sync::MutexGuard<'a, std::sync::mpsc::Receiver<T>>) -> (r:
    Option<T>) {
    match guard.recv() {
        Ok(value) => Some(value),
        Err(_) => None,
    }
}

/// What one attempt to take the next job can observe.
pub enum NextJob<F: FnOnce()> {
    /// A job was dequeued; this thread now owns it exclusively.
    Run(Job<F>),
    /// The queue is closed and drained: no job will ever arrive again.
    Closed,
    /// The lock guarding the receiving half is poisoned and permanently
    /// unusable for this thread.
    LockFailed,
}

/// The receiving half of the job queue, shared by every worker of one pool.
/// Only one worker at a time may attempt a receive.
#[verifier::reject_recursive_types(F)]
pub struct SharedReceiver<F: FnOnce()> {
    lock: std::sync::Arc<std::sync::Mutex<std::sync::mpsc::Receiver<Job<F>>>>,
}

impl<F: FnOnce()> SharedReceiver<F> {
    /// Relies on std::sync::Arc::clone: returns a handle to the same shared
    /// queue (the clone points at the very same lock and receiver).
    #[verifier::external_body]
    pub(crate) fn share(&self) -> (r: SharedReceiver<F>)
        ensures
            r == *self,
    {
        SharedReceiver { lock: std::sync::Arc::clone(&self.lock) }
    }

    /// One round of the shared-access discipline: acquire the lock, attempt
    /// exactly one receive, release the lock before anything else happens.
    /// The guard is dropped before this function returns, so the lock is
    /// never held while the dequeued job executes.
    pub fn next_job(&self) -> (r: NextJob<F>) {
        match lock_receiver(&self.lock) {
            None => NextJob::LockFailed,
            Some(guard) => {
                let received = receive_locked(&guard);
                match received {
                    Some(job) => NextJob::Run(job),
                    None => NextJob::Closed,
                }
            },
        }
    }
}

/// Build one job queue: a sending handle for submitters and a receiving
/// handle that workers will share under a single lock.
pub fn job_channel<F: FnOnce()>() -> (r: (std::sync::mpsc::Sender<Job<F>>, SharedReceiver<F>)) {
    let (sender, receiver) = channel_pair::<Job<F>>();
    let shared = SharedReceiver { lock: std::sync::Arc::new(new_mutex(receiver)) };
    (sender, shared)
}

} // verus!
