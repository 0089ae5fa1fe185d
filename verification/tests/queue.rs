use std::cell::Cell;
use std::cell::RefCell;
use std::rc::Rc;
use web_server_rust::Job;
use web_server_rust::NextJob;
use web_server_rust::Worker;
use web_server_rust::job_channel;

type TestJob = Box<dyn FnOnce()>;

#[test]
fn a_job_runs_its_closure_once() {
    let hits: Rc<Cell<usize>> = Rc::new(Cell::new(0));
    let hits_in = Rc::clone(&hits);
    let job = Job::new(Box::new(move || hits_in.set(hits_in.get() + 1)) as TestJob);
    job.run();
    assert_eq!(hits.get(), 1);
}

#[test]
fn the_queue_hands_jobs_out_in_order_then_reports_closure() {
    let (sender, receiver) = job_channel::<TestJob>();
    let log: Rc<RefCell<Vec<usize>>> = Rc::new(RefCell::new(Vec::new()));
    for i in 0..3usize {
        let log = Rc::clone(&log);
        let sent = sender.send(Job::new(Box::new(move || log.borrow_mut().push(i))));
        assert!(sent.is_ok());
    }
    drop(sender);
    for _ in 0..3 {
        match receiver.next_job() {
            NextJob::Run(job) => job.run(),
            _ => panic!("a queued job was expected"),
        }
    }
    assert!(matches!(receiver.next_job(), NextJob::Closed));
    assert!(matches!(receiver.next_job(), NextJob::Closed));
    assert_eq!(*log.borrow(), vec![0, 1, 2]);
}

#[test]
fn a_worker_is_spawned_with_its_identity_and_the_queue_handle() {
    let (_sender, receiver) = job_channel::<TestJob>();
    let seen: RefCell<Vec<usize>> = RefCell::new(Vec::new());
    let _w: Worker<usize> = Worker::new(7, receiver, &|id, _rx| {
        seen.borrow_mut().push(id);
        id
    });
    assert_eq!(*seen.borrow(), vec![7]);
}
