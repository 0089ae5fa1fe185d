//! The pool: a fixed-size collection of workers, the sending handle of the
//! job queue, and the teardown protocol that closes the queue and joins
//! every worker exactly once, in ordinal order.
//!
//! Spawning and joining an execution thread are the caller's two actions:
//! the pool is generic over the caller's thread-handle type and is handed a
//! spawn closure at construction and a join closure at teardown. Everything
//! else — the queue wiring, the submission path, the dispatch loop a worker
//! runs, and the once-only ownership discipline of handles — lives here.

use crate::model::PoolView;
use crate::model::WorkerView;
use crate::model::fresh_pool;
use crate::model::lemma_running_count_all_stopped;
use crate::model::lemma_running_count_bounds;
use crate::model::lemma_running_ordinals_all_stopped;
use crate::model::running_count;
use crate::model::running_ordinals;
use crate::model::teardown_relates;
use crate::model::torn_down;
use crate::queue::Job;
use crate::queue::NextJob;
use crate::queue::SharedReceiver;
use crate::queue::job_channel;
use crate::queue::send_job;
use vstd::prelude::*;

verus! {

/// One long-lived worker: an ordinal identity (for diagnostics only) and the
/// caller's handle to its thread of execution, owned until the worker is
/// joined at teardown.
pub struct Worker<H> {
    id: usize,
    thread: Option<H>,
}

impl<H> View for Worker<H> {
    type V = WorkerView;

    closed spec fn view(&self) -> WorkerView {
        WorkerView { id: self.id as int, running: self.thread is Some }
    }
}

impl<H> Worker<H> {
    /// The thread handle this worker still owns, if any.
    pub closed spec fn handle(&self) -> Option<H> {
        self.thread
    }

    /// Record one worker with the given ordinal identity: the spawn closure
    /// is called exactly once with that identity and the queue handle the
    /// worker's thread is to serve (its thread should run `dispatch` on that
    /// handle), and the handle it returns is owned until teardown.
    pub fn new<F: FnOnce(), S: Fn(usize, SharedReceiver<F>) -> H>(
        id: usize,
        receiver: SharedReceiver<F>,
        spawner: &S,
    ) -> (w: Worker<H>)
        requires
            spawner.requires((id, receiver)),
        ensures
            w@.id == id as int,
            w@.running,
            w.handle() matches Some(h) && spawner.ensures((id, receiver), h),
    {
        let handle = spawner(id, receiver);
        Worker { id, thread: Some(handle) }
    }
}

/// How a worker's dispatch loop ended; the worker's thread can report it.
#[derive(Debug, PartialEq, Eq)]
pub enum DispatchExit {
    /// The queue closed and drained: the one normal end.
    QueueClosed,
    /// The lock guarding the receiving half is poisoned, so this thread can
    /// never dequeue again.
    LockPoisoned,
    /// The loop's termination budget ran out.
    BudgetSpent,
}

/// The dispatch loop of one worker, run on the worker's own thread: acquire
/// the shared receiving handle, attempt one receive, release the handle,
/// then run the received job to completion before looping. It stops when the
/// queue reports closure — the one normal exit — or when the lock guarding
/// the receiving handle is poisoned, and says which happened so the caller
/// can report it. All workers of a pool share that one lock, so a poisoning,
/// once it exists, ends each worker as it next attempts a receive: the whole
/// pool winds down rather than the one worker alone. Confining the loss
/// further would take a queue with true multi-consumer receive semantics in
/// place of the single guarded receiver. Every loop here carries a
/// termination measure, so one worker serves at most u64::MAX jobs over its
/// life, a bound no real workload reaches.
pub fn dispatch<F: FnOnce()>(receiver: SharedReceiver<F>) -> (exit: DispatchExit) {
    let mut budget: u64 = u64::MAX;
    loop
        decreases budget,
    {
        if budget == 0 {
            return DispatchExit::BudgetSpent;
        }
        match receiver.next_job() {
            NextJob::Run(job) => {
                job.run();
                budget = budget - 1;
            },
            NextJob::Closed => {
                return DispatchExit::QueueClosed;
            },
            NextJob::LockFailed => {
                return DispatchExit::LockPoisoned;
            },
        }
    }
}

/// Why a submission was not accepted.
#[derive(Debug, PartialEq, Eq)]
pub enum SubmitError {
    /// The pool has already relinquished its sending handle: teardown has
    /// begun or finished, and no further job may be submitted.
    AfterShutdown,
    /// The receiving half of the queue is gone — every worker has stopped
    /// and dropped its handle — so the job could not be enqueued.
    Disconnected,
}

/// What a submission returns for each outcome of the enqueue attempt: an
/// accepted job is acknowledged, a refused one is reported as the loss of
/// the queue's receiving half.
fn submit_outcome(accepted: bool) -> (r: Result<(), SubmitError>)
    ensures
        accepted ==> r is Ok,
        !accepted ==> r == Err::<(), SubmitError>(SubmitError::Disconnected),
{
    if accepted {
        Ok(())
    } else {
        Err(SubmitError::Disconnected)
    }
}

/// Every stored handle came out of the spawn closure, called with the
/// worker's own ordinal and a handle to the one shared queue `rx`.
pub open spec fn spawned_with<F: FnOnce(), H, S: Fn(usize, SharedReceiver<F>) -> H>(
    handles: Seq<Option<H>>,
    spawner: S,
    rx: SharedReceiver<F>,
) -> bool {
    forall|i: int|
        0 <= i < handles.len() ==> ((#[trigger] handles[i]) matches Some(h) && spawner.ensures(
            (i as usize, rx),
            h,
        ))
}

/// A fixed-size worker pool. It owns its workers and the sending handle of
/// the job queue; the handle is relinquished exactly once, at teardown.
#[verifier::reject_recursive_types(F)]
pub struct ThreadPool<F: FnOnce(), H> {
    workers: Vec<Worker<H>>,
    sender: Option<std::sync::mpsc::Sender<Job<F>>>,
    joined: Ghost<Seq<int>>,
}

impl<F: FnOnce(), H> View for ThreadPool<F, H> {
    type V = PoolView;

    closed spec fn view(&self) -> PoolView {
        PoolView {
            accepting: self.sender is Some,
            workers: self.workers@.map_values(|w: Worker<H>| w@),
            joined: self.joined@,
        }
    }
}

impl<F: FnOnce(), H> ThreadPool<F, H> {
    /// The thread handles the pool still owns, one slot per worker.
    pub closed spec fn worker_handles(&self) -> Seq<Option<H>> {
        self.workers@.map_values(|w: Worker<H>| w.handle())
    }

    /// Create a pool of `size` workers. One job queue is created; each
    /// worker gets a distinct ordinal identity in 0..size and its own handle
    /// to the queue's shared receiving half, and its stored thread handle is
    /// what the spawn closure returned for exactly that ordinal and that
    /// queue (the closure's thread should run `dispatch`). A pool of zero
    /// workers would be useless, and asking for one is a misconfiguration,
    /// so `size` must be positive: the failure belongs at the call boundary,
    /// before any worker is spawned.
    pub fn new<S: Fn(usize, SharedReceiver<F>) -> H>(size: usize, spawner: S) -> (pool: ThreadPool<
        F,
        H,
    >)
        requires
            size >= 1,
            forall|id: usize, rx: SharedReceiver<F>| spawner.requires((id, rx)),
        ensures
            fresh_pool(pool@, size as int),
            exists|rx: SharedReceiver<F>| #[trigger] spawned_with(
                pool.worker_handles(),
                spawner,
                rx,
            ),
    {
        let (sender, shared) = job_channel::<F>();
        let mut workers: Vec<Worker<H>> = Vec::new();
        let mut id: usize = 0;
        while id < size
            invariant
                id <= size,
                workers@.len() == id,
                forall|i: int|
                    0 <= i < id ==> (#[trigger] workers@[i])@.id == i && workers@[i]@.running,
                forall|i: int|
                    0 <= i < id ==> ((#[trigger] workers@[i]).handle() matches Some(h)
                        && spawner.ensures((i as usize, shared), h)),
                forall|j: usize, rx: SharedReceiver<F>| spawner.requires((j, rx)),
            decreases size - id,
        {
            let fresh_handle = shared.share();
            proof {
                assert(fresh_handle == shared);
            }
            workers.push(Worker::new(id, fresh_handle, &spawner));
            id = id + 1;
        }
        let pool = ThreadPool { workers, sender: Some(sender), joined: Ghost(Seq::empty()) };
        proof {
            assert forall|i: int| 0 <= i < pool@.workers.len() implies (#[trigger] pool@.workers[i]).id
                == i && pool@.workers[i].running by {
                assert(pool@.workers[i] == workers@[i]@);
            }
            assert forall|i: int| 0 <= i < pool.worker_handles().len() implies (
            #[trigger] pool.worker_handles()[i]) matches Some(h) && spawner.ensures(
                (i as usize, shared),
                h,
            ) by {
                assert(pool.worker_handles()[i] == workers@[i].handle());
            }
            assert(spawned_with(pool.worker_handles(), spawner, shared));
        }
        pool
    }

    /// Submit one job. While the pool accepts submissions the job is
    /// enqueued, to be dequeued by exactly one worker and run — unless the
    /// receiving half is already gone. Once teardown has begun the call
    /// reports that instead of silently dropping the job.
    pub fn execute(&self, f: F) -> (r: Result<(), SubmitError>)
        requires
            f.requires(()),
        ensures
            !self@.accepting ==> r == Err::<(), SubmitError>(SubmitError::AfterShutdown),
            self@.accepting ==> (r is Ok || r == Err::<(), SubmitError>(
                SubmitError::Disconnected,
            )),
    {
        match &self.sender {
            Some(sender) => {
                let job = Job::new(f);
                submit_outcome(send_job(sender, job))
            },
            None => Err(SubmitError::AfterShutdown),
        }
    }

    /// How many workers the pool was built with; the count is fixed for the
    /// pool's whole life.
    pub fn worker_count(&self) -> (n: usize)
        ensures
            n as int == self@.workers.len(),
    {
        self.workers.len()
    }

    /// Whether the pool still holds its sending handle, that is, teardown
    /// has not begun.
    pub fn is_accepting(&self) -> (b: bool)
        ensures
            b == self@.accepting,
    {
        self.sender.is_some()
    }

    /// Tear the pool down: relinquish the sending handle — closing the
    /// queue, so every worker finishes the jobs already queued and exits —
    /// then join each worker in ordinal order by handing its thread handle
    /// to the join closure, exactly once per handle still owned: the two
    /// closure-linkage clauses force one join-closure call per owned handle,
    /// whose result is counted, and the joined-ordinal sequence fixes the
    /// order. The join closure reports whether the thread was joined
    /// cleanly; a failure is counted and never stops the remaining joins.
    /// Calling shutdown again is safe: a second call finds nothing to
    /// relinquish or join and leaves the pool unchanged.
    pub fn shutdown<J: Fn(H) -> bool>(&mut self, joiner: J) -> (failures: usize)
        requires
            forall|h: H| joiner.requires((h,)),
        ensures
            teardown_relates(old(self)@, final(self)@),
            failures as int <= running_count(old(self)@.workers),
            (forall|h: H, ok: bool| joiner.ensures((h,), ok) ==> ok) ==> failures == 0,
            (forall|h: H, ok: bool| joiner.ensures((h,), ok) ==> !ok) ==> failures as int
                == running_count(old(self)@.workers),
            torn_down(old(self)@) ==> final(self)@ == old(self)@ && failures == 0,
    {
        let ghost vs0: Seq<WorkerView> = old(self)@.workers;
        {
            // Dropping the only sending handle is the closure signal: once
            // the queue drains, every blocked receive observes closure.
            let _closed = self.sender.take();
        }
        let ghost ws0: Seq<Worker<H>> = self.workers@;
        let mut pending: Vec<Worker<H>> = Vec::new();
        core::mem::swap(&mut pending, &mut self.workers);
        let total: usize = pending.len();
        let mut failures: usize = 0;
        proof {
            assert(vs0.take(0) =~= Seq::<WorkerView>::empty());
        }
        while pending.len() > 0
            invariant
                self.sender is None,
                ws0.len() == vs0.len(),
                ws0.len() == total as int,
                forall|i: int| 0 <= i < ws0.len() ==> (#[trigger] ws0[i])@ == vs0[i],
                self.workers@.len() + pending@.len() == ws0.len(),
                pending@ == ws0.subrange(self.workers@.len() as int, ws0.len() as int),
                forall|i: int|
                    0 <= i < self.workers@.len() ==> !(#[trigger] self.workers@[i])@.running
                        && self.workers@[i]@.id == vs0[i].id,
                forall|i: int|
                    0 <= i < self.workers@.len() ==> (!vs0[i].running ==> (
                    #[trigger] self.workers@[i]) == ws0[i]),
                self.joined@ == old(self)@.joined + running_ordinals(
                    vs0.take(self.workers@.len() as int),
                ),
                failures as int <= running_count(vs0.take(self.workers@.len() as int)),
                (forall|h: H, ok: bool| joiner.ensures((h,), ok) ==> ok) ==> failures == 0,
                (forall|h: H, ok: bool| joiner.ensures((h,), ok) ==> !ok) ==> failures as int
                    == running_count(vs0.take(self.workers@.len() as int)),
                forall|h: H| joiner.requires((h,)),
            decreases pending@.len(),
        {
            let ghost k = self.workers@.len() as int;
            proof {
                assert(pending@[0] == ws0[k]);
                assert(vs0.take(k + 1).drop_last() =~= vs0.take(k));
                assert(vs0.take(k + 1).last() == vs0[k]);
                lemma_running_count_bounds(vs0.take(k));
                lemma_running_count_bounds(vs0.take(k + 1));
            }
            let mut worker = pending.remove(0);
            proof {
                assert(worker@ == vs0[k]);
            }
            let taken = worker.thread.take();
            match taken {
                Some(handle) => {
                    self.joined = Ghost(self.joined@.push(worker.id as int));
                    if !joiner(handle) {
                        failures = failures + 1;
                    }
                },
                None => {},
            }
            self.workers.push(worker);
            proof {
                assert(pending@ =~= ws0.subrange(self.workers@.len() as int, ws0.len() as int));
            }
        }
        proof {
            assert(vs0.take(vs0.len() as int) =~= vs0);
            assert forall|i: int| 0 <= i < self.workers@.len() implies (#[trigger] self@.workers[i]).id
                == vs0[i].id && !self@.workers[i].running by {
                assert(self@.workers[i] == self.workers@[i]@);
            }
            if torn_down(old(self)@) {
                lemma_running_count_all_stopped(vs0);
                lemma_running_ordinals_all_stopped(vs0);
                assert(old(self)@.joined + running_ordinals(vs0) =~= old(self)@.joined);
                assert forall|i: int| 0 <= i < self.workers@.len() implies self@.workers[i]
                    == vs0[i] by {
                    assert(self.workers@[i] == ws0[i]);
                }
                assert(self@.workers =~= old(self)@.workers);
                assert(self@ =~= old(self)@);
            }
        }
        failures
    }
}

} // verus!
