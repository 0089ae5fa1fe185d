use std::cell::RefCell;
use std::rc::Rc;
use web_server_rust::DispatchExit;
use web_server_rust::SubmitError;
use web_server_rust::ThreadPool;
use web_server_rust::dispatch;

type TestJob = Box<dyn FnOnce()>;

#[test]
fn construction_records_each_worker_in_order() {
    for n in [1usize, 2, 8, 64] {
        let spawned: RefCell<Vec<usize>> = RefCell::new(Vec::new());
        let pool = ThreadPool::<TestJob, usize>::new(n, |id, _rx| {
            spawned.borrow_mut().push(id);
            id
        });
        assert_eq!(pool.worker_count(), n);
        assert!(pool.is_accepting());
        let ids: Vec<usize> = spawned.borrow().clone();
        let expected: Vec<usize> = (0..n).collect();
        assert_eq!(ids, expected);
    }
}

#[test]
fn teardown_joins_every_worker_exactly_once_in_order() {
    for n in [1usize, 2, 8, 64] {
        let mut pool = ThreadPool::<TestJob, usize>::new(n, |id, _rx| id);
        let joined: RefCell<Vec<usize>> = RefCell::new(Vec::new());
        let failures = pool.shutdown(|h| {
            joined.borrow_mut().push(h);
            true
        });
        assert_eq!(failures, 0);
        assert!(!pool.is_accepting());
        assert_eq!(pool.worker_count(), n);
        let order: Vec<usize> = joined.borrow().clone();
        let expected: Vec<usize> = (0..n).collect();
        assert_eq!(order, expected);
    }
}

#[test]
fn teardown_twice_is_safe_and_joins_nothing_again() {
    let n = 4usize;
    let mut pool = ThreadPool::<TestJob, usize>::new(n, |id, _rx| id);
    let joins: RefCell<usize> = RefCell::new(0);
    let first = pool.shutdown(|_h| {
        *joins.borrow_mut() += 1;
        true
    });
    assert_eq!(first, 0);
    assert_eq!(*joins.borrow(), n);
    let second = pool.shutdown(|_h| {
        *joins.borrow_mut() += 1;
        true
    });
    assert_eq!(second, 0);
    assert_eq!(*joins.borrow(), n, "a second teardown must not join again");
    assert_eq!(pool.worker_count(), n);
    assert!(!pool.is_accepting());
}

#[test]
fn join_failures_are_counted_but_do_not_stop_teardown() {
    let n = 6usize;
    let mut pool = ThreadPool::<TestJob, usize>::new(n, |id, _rx| id);
    let joined: RefCell<Vec<usize>> = RefCell::new(Vec::new());
    let failures = pool.shutdown(|h| {
        joined.borrow_mut().push(h);
        h % 2 == 0
    });
    assert_eq!(failures, 3);
    let order: Vec<usize> = joined.borrow().clone();
    let expected: Vec<usize> = (0..n).collect();
    assert_eq!(order, expected, "every worker is still joined, in order");
}

#[test]
fn jobs_run_exactly_once_each() {
    let n = 4usize;
    for k in [0usize, 1, 4, 40] {
        let stash = RefCell::new(Vec::new());
        let mut pool = ThreadPool::<TestJob, usize>::new(n, |id, rx| {
            stash.borrow_mut().push(rx);
            id
        });
        let log: Rc<RefCell<Vec<usize>>> = Rc::new(RefCell::new(Vec::new()));
        for i in 0..k {
            let log = Rc::clone(&log);
            let r = pool.execute(Box::new(move || log.borrow_mut().push(i)));
            assert!(r.is_ok());
        }
        assert_eq!(log.borrow().len(), 0, "nothing runs before a worker serves the queue");
        let failures = pool.shutdown(|_h| true);
        assert_eq!(failures, 0);
        let rx = stash.borrow_mut().pop().unwrap();
        assert_eq!(dispatch(rx), DispatchExit::QueueClosed);
        let mut seen: Vec<usize> = log.borrow().clone();
        seen.sort();
        let expected: Vec<usize> = (0..k).collect();
        assert_eq!(seen, expected, "each job ran exactly once, none dropped, none twice");
    }
}

#[test]
fn jobs_from_one_producer_are_served_in_submission_order() {
    let stash = RefCell::new(Vec::new());
    let mut pool = ThreadPool::<TestJob, usize>::new(1, |id, rx| {
        stash.borrow_mut().push(rx);
        id
    });
    let log: Rc<RefCell<Vec<usize>>> = Rc::new(RefCell::new(Vec::new()));
    for i in 0..10usize {
        let log = Rc::clone(&log);
        assert!(pool.execute(Box::new(move || log.borrow_mut().push(i))).is_ok());
    }
    pool.shutdown(|_h| true);
    let rx = stash.borrow_mut().pop().unwrap();
    assert_eq!(dispatch(rx), DispatchExit::QueueClosed);
    let order: Vec<usize> = log.borrow().clone();
    let expected: Vec<usize> = (0..10).collect();
    assert_eq!(order, expected, "single-producer submissions are dequeued in order");
}

#[test]
fn no_new_job_after_teardown_but_queued_jobs_complete() {
    let stash = RefCell::new(Vec::new());
    let mut pool = ThreadPool::<TestJob, usize>::new(2, |id, rx| {
        stash.borrow_mut().push(rx);
        id
    });
    let log: Rc<RefCell<Vec<usize>>> = Rc::new(RefCell::new(Vec::new()));
    for i in 0..3usize {
        let log = Rc::clone(&log);
        assert!(pool.execute(Box::new(move || log.borrow_mut().push(i))).is_ok());
    }
    pool.shutdown(|_h| true);
    let log_late = Rc::clone(&log);
    let late = pool.execute(Box::new(move || log_late.borrow_mut().push(99)));
    assert_eq!(late, Err(SubmitError::AfterShutdown));
    let rx = stash.borrow_mut().pop().unwrap();
    assert_eq!(dispatch(rx), DispatchExit::QueueClosed);
    let mut seen: Vec<usize> = log.borrow().clone();
    seen.sort();
    assert_eq!(seen, vec![0, 1, 2], "jobs accepted before teardown ran; the late one never did");
}

#[test]
fn submission_fails_when_every_receiver_is_gone() {
    // The spawn closure drops its queue handle at once, so no receiving
    // handle survives construction and the queue cannot accept a job.
    let pool = ThreadPool::<TestJob, usize>::new(2, |id, _rx| id);
    let r = pool.execute(Box::new(|| ()));
    assert_eq!(r, Err(SubmitError::Disconnected));
}

#[test]
fn shared_log_scenario_all_five_indices_present_once() {
    let stash = RefCell::new(Vec::new());
    let mut pool = ThreadPool::<TestJob, usize>::new(2, |id, rx| {
        stash.borrow_mut().push(rx);
        id
    });
    let log = Rc::new(std::sync::Mutex::new(Vec::new()));
    for i in 0..5usize {
        let log = Rc::clone(&log);
        assert!(pool.execute(Box::new(move || log.lock().unwrap().push(i))).is_ok());
    }
    pool.shutdown(|_h| true);
    let rx = stash.borrow_mut().pop().unwrap();
    assert_eq!(dispatch(rx), DispatchExit::QueueClosed);
    let mut seen: Vec<usize> = log.lock().unwrap().clone();
    seen.sort();
    assert_eq!(seen, vec![0, 1, 2, 3, 4]);
}

#[test]
fn a_joiner_that_always_fails_reports_one_failure_per_worker() {
    let n = 5usize;
    let mut pool = ThreadPool::<TestJob, usize>::new(n, |id, _rx| id);
    let failures = pool.shutdown(|_h| false);
    assert_eq!(failures, n);
}
