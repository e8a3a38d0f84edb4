use std::cell::RefCell;
use std::rc::Rc;
use std::sync::atomic::{AtomicBool, AtomicUsize, Ordering};
use std::sync::Arc;

use rust_book::pool::model::{Action, JobOutcome, Message, Worker, WorkerState};
use rust_book::pool::{Rejected, ThreadPool};

type Job = Box<dyn FnOnce() + Send + 'static>;

/// Lets the workers take turns, each running the job it gets to its end,
/// until no worker can take a step; returns how many jobs were run.
fn run_workers(pool: &mut ThreadPool<Job>) -> usize {
    let mut ran = 0;
    let mut progress = true;
    while progress {
        progress = false;
        for id in 0..pool.size() {
            match pool.receive(id) {
                Some(Action::Run(job)) => {
                    job();
                    assert!(pool.complete(id, JobOutcome::Completed));
                    ran += 1;
                    progress = true;
                }
                Some(Action::Exit) => progress = true,
                None => {}
            }
        }
    }
    ran
}

#[test]
fn new_pool_has_one_idle_worker_per_slot() {
    for size in 1..=8usize {
        let pool: ThreadPool<u32> = ThreadPool::new(size);
        assert_eq!(pool.size(), size);
        assert_eq!(pool.pending(), 0);
        assert!(pool.is_accepting());
        assert!(!pool.all_exited());
        for id in 0..size {
            assert_eq!(pool.worker_state(id), Some(WorkerState::Idle));
        }
        assert_eq!(pool.worker_state(size), None);
    }
}

#[test]
fn every_worker_of_a_new_pool_can_run_a_job() {
    let mut pool: ThreadPool<u32> = ThreadPool::new(4);
    for job in 0..4u32 {
        assert!(pool.execute(job).is_ok());
    }
    for id in 0..4usize {
        match pool.receive(id) {
            Some(Action::Run(job)) => assert_eq!(job as usize, id),
            _ => panic!("worker {} got no job", id),
        }
        assert_eq!(pool.worker_state(id), Some(WorkerState::Running));
    }
    assert_eq!(pool.pending(), 0);
}

#[test]
fn worker_record_starts_idle() {
    let worker = Worker::new(3);
    assert_eq!(worker.id, 3);
    assert_eq!(worker.state, WorkerState::Idle);
}

#[test]
fn worker_runs_a_job_and_exits_on_terminate() {
    let mut worker = Worker::new(0);
    match worker.handle(Message::NewJob(17u8)) {
        Action::Run(job) => assert_eq!(job, 17),
        Action::Exit => panic!("a job is no reason to exit"),
    }
    assert_eq!(worker.state, WorkerState::Running);
    worker.finish(JobOutcome::Failed);
    assert_eq!(worker.state, WorkerState::Idle);
    assert!(matches!(worker.handle(Message::<u8>::Terminate), Action::Exit));
    assert_eq!(worker.state, WorkerState::Exited);
    assert_eq!(worker.id, 0);
}

#[test]
fn jobs_are_handed_out_in_submission_order() {
    let mut pool: ThreadPool<u32> = ThreadPool::new(3);
    for job in 10..20u32 {
        assert!(pool.execute(job).is_ok());
    }
    let mut handed_out = Vec::new();
    let order = [2usize, 0, 1, 1, 0, 2, 2, 1, 0, 0];
    for id in order {
        match pool.receive(id) {
            Some(Action::Run(job)) => handed_out.push(job),
            _ => panic!("worker {} got no job", id),
        }
        assert!(pool.complete(id, JobOutcome::Completed));
    }
    assert_eq!(handed_out, (10..20u32).collect::<Vec<u32>>());
    assert_eq!(pool.pending(), 0);
}

#[test]
fn jobs_of_two_producers_are_neither_lost_nor_repeated() {
    let mut pool: ThreadPool<(u8, u32)> = ThreadPool::new(2);
    let mut handed_out = Vec::new();
    for round in 0..50u32 {
        assert!(pool.execute((b'a', round)).is_ok());
        assert!(pool.execute((b'b', round)).is_ok());
        let id = (round % 2) as usize;
        if let Some(Action::Run(job)) = pool.receive(id) {
            handed_out.push(job);
        }
        pool.complete(id, JobOutcome::Completed);
    }
    pool.shutdown();
    let mut progress = true;
    while progress {
        progress = false;
        for id in 0..2usize {
            match pool.receive(id) {
                Some(Action::Run(job)) => {
                    handed_out.push(job);
                    pool.complete(id, JobOutcome::Completed);
                    progress = true;
                }
                Some(Action::Exit) => progress = true,
                None => {}
            }
        }
    }
    assert!(pool.all_exited());
    assert_eq!(handed_out.len(), 100);
    for producer in [b'a', b'b'] {
        let of_producer: Vec<u32> =
            handed_out.iter().filter(|job| job.0 == producer).map(|job| job.1).collect();
        assert_eq!(of_producer, (0..50u32).collect::<Vec<u32>>());
    }
}

#[test]
fn ten_jobs_on_two_workers_count_to_ten() {
    let counter = Arc::new(AtomicUsize::new(0));
    let mut pool: ThreadPool<Job> = ThreadPool::new(2);
    for _ in 0..10 {
        let counter = Arc::clone(&counter);
        let job: Job = Box::new(move || {
            counter.fetch_add(1, Ordering::SeqCst);
        });
        assert!(pool.execute(job).is_ok());
    }
    assert_eq!(pool.pending(), 10);
    let to_join = pool.shutdown();
    assert_eq!(to_join, vec![0, 1]);
    assert_eq!(pool.pending(), 12);
    assert_eq!(run_workers(&mut pool), 10);
    assert!(pool.all_exited());
    assert_eq!(pool.pending(), 0);
    assert_eq!(counter.load(Ordering::SeqCst), 10);
}

#[test]
fn single_worker_runs_jobs_one_after_the_other() {
    let log: Rc<RefCell<Vec<&'static str>>> = Rc::new(RefCell::new(Vec::new()));
    let mut pool: ThreadPool<Box<dyn FnOnce()>> = ThreadPool::new(1);
    let first_log = Rc::clone(&log);
    assert!(pool.execute(Box::new(move || first_log.borrow_mut().push("slept"))).is_ok());
    let second_log = Rc::clone(&log);
    assert!(pool.execute(Box::new(move || second_log.borrow_mut().push("flag"))).is_ok());

    let first = match pool.receive(0) {
        Some(Action::Run(job)) => job,
        _ => panic!("the first job must be handed out"),
    };
    assert_eq!(pool.worker_state(0), Some(WorkerState::Running));
    assert!(pool.receive(0).is_none());
    assert_eq!(pool.pending(), 1);
    assert!(log.borrow().is_empty());
    first();
    assert!(pool.receive(0).is_none());
    assert!(pool.complete(0, JobOutcome::Completed));
    match pool.receive(0) {
        Some(Action::Run(job)) => job(),
        _ => panic!("the second job must be handed out"),
    }
    assert_eq!(*log.borrow(), vec!["slept", "flag"]);
}

#[test]
fn failed_job_leaves_the_pool_usable() {
    let done = Arc::new(AtomicBool::new(false));
    let mut pool: ThreadPool<Job> = ThreadPool::new(4);
    assert!(pool.execute(Box::new(|| {})).is_ok());
    match pool.receive(2) {
        Some(Action::Run(_failing)) => {}
        _ => panic!("the job must be handed out"),
    }
    assert!(pool.complete(2, JobOutcome::Failed));
    for id in 0..4usize {
        assert_eq!(pool.worker_state(id), Some(WorkerState::Idle));
    }
    assert!(pool.is_accepting());

    let flag = Arc::clone(&done);
    assert!(pool.execute(Box::new(move || flag.store(true, Ordering::SeqCst))).is_ok());
    match pool.receive(2) {
        Some(Action::Run(job)) => job(),
        _ => panic!("the worker that saw the failure must still get jobs"),
    }
    assert!(pool.complete(2, JobOutcome::Completed));
    assert!(done.load(Ordering::SeqCst));
}

#[test]
fn shutdown_without_jobs_lets_all_three_workers_exit() {
    let mut pool: ThreadPool<Job> = ThreadPool::new(3);
    let to_join = pool.shutdown();
    assert_eq!(to_join, vec![0, 1, 2]);
    assert_eq!(pool.pending(), 3);
    assert!(!pool.is_accepting());
    for id in 0..3usize {
        assert!(matches!(pool.receive(id), Some(Action::Exit)));
        assert_eq!(pool.worker_state(id), Some(WorkerState::Exited));
    }
    assert!(pool.all_exited());
    assert_eq!(pool.pending(), 0);
}

#[test]
fn second_shutdown_changes_nothing_and_joins_nobody() {
    let mut pool: ThreadPool<u32> = ThreadPool::new(3);
    assert!(pool.execute(1).is_ok());
    assert_eq!(pool.shutdown(), vec![0, 1, 2]);
    assert_eq!(pool.pending(), 4);
    assert_eq!(pool.shutdown(), Vec::<usize>::new());
    assert_eq!(pool.pending(), 4);
    assert!(!pool.is_accepting());
    assert!(matches!(pool.receive(0), Some(Action::Run(1))));
    assert!(pool.complete(0, JobOutcome::Completed));
    assert_eq!(pool.shutdown(), Vec::<usize>::new());
    assert_eq!(pool.pending(), 3);
}

#[test]
fn submission_after_shutdown_hands_the_job_back() {
    let mut pool: ThreadPool<String> = ThreadPool::new(1);
    pool.shutdown();
    match pool.execute(String::from("late")) {
        Err(Rejected { job }) => assert_eq!(job, "late"),
        Ok(()) => panic!("a closed pool must refuse the job"),
    }
    assert_eq!(pool.pending(), 1);
    assert!(matches!(pool.receive(0), Some(Action::Exit)));
    assert!(pool.receive(0).is_none());
    assert_eq!(pool.pending(), 0);
}

#[test]
fn jobs_accepted_before_shutdown_run_before_the_workers_exit() {
    let mut pool: ThreadPool<u32> = ThreadPool::new(2);
    for job in 0..5u32 {
        assert!(pool.execute(job).is_ok());
    }
    pool.shutdown();
    let mut seen = Vec::new();
    while !pool.all_exited() {
        for id in 0..2usize {
            match pool.receive(id) {
                Some(Action::Run(job)) => {
                    assert_eq!(pool.worker_state(1 - id).map(|s| s == WorkerState::Exited), Some(false));
                    seen.push(job);
                    pool.complete(id, JobOutcome::Completed);
                }
                Some(Action::Exit) => assert_eq!(seen.len(), 5),
                None => {}
            }
        }
    }
    assert_eq!(seen, vec![0, 1, 2, 3, 4]);
}

#[test]
fn steps_that_cannot_be_taken_change_nothing() {
    let mut pool: ThreadPool<u32> = ThreadPool::new(2);
    assert!(pool.receive(0).is_none());
    assert!(pool.receive(2).is_none());
    assert!(!pool.complete(0, JobOutcome::Completed));
    assert!(!pool.complete(7, JobOutcome::Failed));
    assert!(pool.execute(5).is_ok());
    assert!(pool.receive(9).is_none());
    assert_eq!(pool.pending(), 1);
    pool.shutdown();
    assert!(matches!(pool.receive(1), Some(Action::Run(5))));
    assert!(matches!(pool.receive(0), Some(Action::Exit)));
    assert!(pool.receive(0).is_none());
    assert!(!pool.complete(0, JobOutcome::Completed));
    assert_eq!(pool.worker_state(0), Some(WorkerState::Exited));
    assert_eq!(pool.pending(), 1);
}
