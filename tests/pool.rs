use std::cell::RefCell;
use std::rc::Rc;

use rustbook::pool::{PoolCore, PoolError};
use rustbook::queue::{ChannelClosed, JobQueue, Received};
use rustbook::worker::{Message, Worker, WorkerAction, WorkerState};

type Job = Box<dyn FnOnce()>;

/// Steps every worker in turn, running the jobs they take, until every
/// worker has left its loop. Returns how many jobs ran.
fn run_until_all_exit(queue: &mut JobQueue<Message<Job>>, workers: &mut Vec<Worker>) -> usize {
    let mut ran = 0;
    while workers.iter().any(|w| w.state() != WorkerState::Terminated) {
        for w in workers.iter_mut() {
            if w.state() == WorkerState::Idle {
                match w.step(queue) {
                    WorkerAction::Run(job) => {
                        job();
                        ran += 1;
                        w.job_finished();
                    }
                    WorkerAction::Wait => {}
                    WorkerAction::Exit => {}
                }
            }
        }
    }
    ran
}

fn start(size: usize) -> (PoolCore, JobQueue<Message<Job>>, Vec<Worker>) {
    let pool = PoolCore::construct(size).ok().unwrap();
    let workers = pool.worker_ids().into_iter().map(Worker::new).collect();
    (pool, JobQueue::new(), workers)
}

fn shut_down(pool: &mut PoolCore, queue: &mut JobQueue<Message<Job>>, workers: &mut Vec<Worker>) -> usize {
    let plan = pool.shutdown(queue);
    let ran = run_until_all_exit(queue, workers);
    for id in plan {
        pool.record_joined(id);
    }
    ran
}

#[test]
fn construct_zero_fails() {
    assert_eq!(Err(PoolError::ConstructionError), PoolCore::construct(0).map(|_| ()));
}

#[test]
fn construct_starts_every_worker() {
    for n in [1usize, 2, 4, 7] {
        let pool = PoolCore::construct(n).ok().unwrap();
        assert_eq!(n, pool.size());
        assert_eq!(n, pool.running());
        assert_eq!((0..n).collect::<Vec<_>>(), pool.worker_ids());
        assert!(!pool.is_shut_down());
    }
}

#[test]
fn every_job_runs_exactly_once() {
    for (n, k) in [(1usize, 0usize), (5, 3), (2, 10), (3, 3)] {
        let (mut pool, mut queue, mut workers) = start(n);
        let hits = Rc::new(RefCell::new(vec![0u32; k]));
        for i in 0..k {
            let h = hits.clone();
            let job: Job = Box::new(move || h.borrow_mut()[i] += 1);
            assert_eq!(Ok(()), pool.submit(&mut queue, job));
        }
        assert_eq!(k, queue.len());
        let ran = shut_down(&mut pool, &mut queue, &mut workers);
        assert_eq!(k, ran);
        assert!(hits.borrow().iter().all(|&c| c == 1));
    }
}

#[test]
fn shutdown_leaves_no_worker_running() {
    let (mut pool, mut queue, mut workers) = start(3);
    let plan = pool.shutdown(&mut queue);
    assert_eq!(vec![0, 1, 2], plan);
    assert!(queue.is_closed());
    assert_eq!(3, queue.len());
    run_until_all_exit(&mut queue, &mut workers);
    assert_eq!(3, pool.running());
    for id in plan {
        pool.record_joined(id);
    }
    assert_eq!(0, pool.running());
    assert!(workers.iter().all(|w| w.state() == WorkerState::Terminated));
}

#[test]
fn second_shutdown_is_a_no_op() {
    let (mut pool, mut queue, mut workers) = start(2);
    shut_down(&mut pool, &mut queue, &mut workers);
    assert_eq!(Vec::<usize>::new(), pool.shutdown(&mut queue));
    assert_eq!(0, queue.len());
    assert_eq!(0, pool.running());
}

#[test]
fn submit_after_shutdown_is_rejected() {
    let (mut pool, mut queue, mut workers) = start(2);
    shut_down(&mut pool, &mut queue, &mut workers);
    let ran = Rc::new(RefCell::new(false));
    let r = ran.clone();
    let job: Job = Box::new(move || *r.borrow_mut() = true);
    assert_eq!(Err(PoolError::SubmissionRejected), pool.submit(&mut queue, job));
    assert_eq!(0, queue.len());
    assert!(!*ran.borrow());
}

#[test]
fn submit_to_closed_queue_is_rejected() {
    let pool = PoolCore::construct(1).ok().unwrap();
    let mut queue: JobQueue<Message<Job>> = JobQueue::new();
    queue.close();
    let job: Job = Box::new(|| {});
    assert_eq!(Err(PoolError::SubmissionRejected), pool.submit(&mut queue, job));
}

#[test]
fn contended_counter_reaches_one_thousand() {
    let (mut pool, mut queue, mut workers) = start(4);
    let counter = Rc::new(RefCell::new(0u32));
    for _ in 0..1000 {
        let c = counter.clone();
        let job: Job = Box::new(move || *c.borrow_mut() += 1);
        assert_eq!(Ok(()), pool.submit(&mut queue, job));
    }
    shut_down(&mut pool, &mut queue, &mut workers);
    assert_eq!(1000, *counter.borrow());
}

#[test]
fn tagged_jobs_all_logged() {
    let (mut pool, mut queue, mut workers) = start(2);
    let log = Rc::new(RefCell::new(Vec::new()));
    for tag in ["A", "B", "C", "D"] {
        let l = log.clone();
        let job: Job = Box::new(move || l.borrow_mut().push(tag));
        assert_eq!(Ok(()), pool.submit(&mut queue, job));
    }
    shut_down(&mut pool, &mut queue, &mut workers);
    let mut sorted = log.borrow().clone();
    sorted.sort();
    assert_eq!(vec!["A", "B", "C", "D"], sorted);
}

#[test]
fn queue_is_fifo_and_drains_after_close() {
    let mut q: JobQueue<u32> = JobQueue::new();
    assert!(matches!(q.try_receive(), Received::Empty));
    assert_eq!(Ok(()), q.send(1));
    assert_eq!(Ok(()), q.send(2));
    q.close();
    assert_eq!(Err(ChannelClosed), q.send(3));
    assert!(matches!(q.try_receive(), Received::Item(1)));
    assert!(matches!(q.try_receive(), Received::Item(2)));
    assert!(matches!(q.try_receive(), Received::Closed));
    assert!(matches!(q.try_receive(), Received::Closed));
}

#[test]
fn worker_reacts_to_each_message() {
    let mut w = Worker::new(7);
    assert_eq!(7, w.id());
    assert_eq!(WorkerState::Idle, w.state());
    let mut q: JobQueue<Message<u32>> = JobQueue::new();
    assert!(matches!(w.step(&mut q), WorkerAction::Wait));
    assert_eq!(WorkerState::Idle, w.state());
    let _ = q.send(Message::NewJob(5));
    let _ = q.send(Message::Terminate);
    assert!(matches!(w.step(&mut q), WorkerAction::Run(5)));
    assert_eq!(WorkerState::Executing, w.state());
    w.job_finished();
    assert_eq!(WorkerState::Idle, w.state());
    assert!(matches!(w.step(&mut q), WorkerAction::Exit));
    assert_eq!(WorkerState::Terminated, w.state());

    let mut w2 = Worker::new(0);
    q.close();
    assert!(matches!(w2.step(&mut q), WorkerAction::Exit));
    assert_eq!(WorkerState::Terminated, w2.state());
}

#[test]
fn jobs_submitted_between_steps_all_run() {
    let (mut pool, mut queue, mut workers) = start(2);
    let counter = Rc::new(RefCell::new(0u32));
    for round in 0..5u32 {
        for _ in 0..round {
            let c = counter.clone();
            let job: Job = Box::new(move || *c.borrow_mut() += 1);
            assert_eq!(Ok(()), pool.submit(&mut queue, job));
        }
        if let WorkerAction::Run(job) = workers[0].step(&mut queue) {
            job();
            workers[0].job_finished();
        }
    }
    shut_down(&mut pool, &mut queue, &mut workers);
    assert_eq!(10, *counter.borrow());
}
