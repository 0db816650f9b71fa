use std::cell::Cell;
use std::sync::mpsc::{channel, Receiver};

use dirty::task::{Task, TaskPool};

type Job = Box<dyn FnOnce() -> u32>;

fn job(n: u32) -> Job {
    Box::new(move || n * 10)
}

/// Runs the job at once and leaves its result in a channel.
fn launch(job: Job) -> Receiver<u32> {
    let (tx, rx) = channel();
    tx.send(job()).expect("send");
    rx
}

fn receive(rx: &Receiver<u32>) -> Option<u32> {
    rx.try_recv().ok()
}

fn wait(rx: &Receiver<u32>) -> Option<u32> {
    rx.recv().ok()
}

#[test]
fn new_task_waits() {
    let mut t: Task<Job, Receiver<u32>> = Task::new(job(1));
    assert!(!t.started());
    assert!(!t.done());
    assert_eq!(t.poll(&receive), None);
    assert_eq!(t.poll_blocked(&wait), None);
    assert!(!t.done());
}

#[test]
fn started_task_gives_its_result_once() {
    let mut t: Task<Job, Receiver<u32>> = Task::new(job(4));
    t.start(&launch);
    assert!(t.started());
    assert!(!t.done());
    assert_eq!(t.poll(&receive), Some(40));
    assert!(t.done());
    assert_eq!(t.poll(&receive), None);
    assert!(t.done());
}

#[test]
fn task_is_launched_only_once() {
    let launched = Cell::new(0);
    let counting = |job: Job| {
        launched.set(launched.get() + 1);
        launch(job)
    };
    let mut t: Task<Job, Receiver<u32>> = Task::new(job(2));
    t.start(&counting);
    t.start(&counting);
    assert_eq!(launched.get(), 1);
    assert_eq!(t.poll(&receive), Some(20));
}

#[test]
fn exec_starts_at_once() {
    let mut t: Task<Job, Receiver<u32>> = Task::exec(job(3), &launch);
    assert!(t.started());
    assert_eq!(t.poll_blocked(&wait), Some(30));
    assert!(t.done());
    // The job is gone and the channel closed: nothing more comes.
    assert_eq!(t.poll_blocked(&wait), None);
}

#[test]
fn task_without_a_result_stays_undone() {
    // A handle that never has anything.
    let silent = |_: Job| channel::<u32>();
    let mut t: Task<Job, (std::sync::mpsc::Sender<u32>, Receiver<u32>)> = Task::exec(job(1), &silent);
    let ask = |h: &(std::sync::mpsc::Sender<u32>, Receiver<u32>)| h.1.try_recv().ok();
    assert!(t.started());
    assert_eq!(t.poll(&ask), None);
    assert!(!t.done());
}

#[test]
fn pool_runs_at_most_max_tasks() {
    let mut pool: TaskPool<Job, Receiver<u32>> = TaskPool::new(2);
    assert_eq!((pool.queue_count(), pool.active_count(), pool.completed(), pool.total()), (0, 0, 0, 0));
    for n in 1..=5 {
        pool.exec(job(n), &launch);
    }
    assert_eq!(pool.total(), 5);
    assert_eq!(pool.active_count(), 2);
    assert_eq!(pool.queue_count(), 3);
    assert_eq!(pool.completed(), 0);
}

#[test]
fn pool_hands_out_results_in_order_and_refills() {
    let mut pool: TaskPool<Job, Receiver<u32>> = TaskPool::new(2);
    for n in 1..=5 {
        pool.exec(job(n), &launch);
    }
    assert_eq!(pool.poll(&receive, &launch), vec![10, 20]);
    assert_eq!((pool.active_count(), pool.queue_count(), pool.completed()), (2, 1, 2));
    assert_eq!(pool.poll(&receive, &launch), vec![30, 40]);
    assert_eq!((pool.active_count(), pool.queue_count(), pool.completed()), (1, 0, 4));
    assert_eq!(pool.poll(&receive, &launch), vec![50]);
    assert_eq!((pool.active_count(), pool.queue_count(), pool.completed()), (0, 0, 5));
    assert_eq!(pool.poll(&receive, &launch), Vec::<u32>::new());
    assert_eq!(pool.total(), 5);
    assert_eq!(pool.completed(), 5);
}

#[test]
fn pool_keeps_tasks_that_are_not_done() {
    let slots: Cell<u32> = Cell::new(0);
    // Every second handle has a result; the others stay silent.
    let patchy = |job: Job| {
        let (tx, rx) = channel();
        let n = slots.get();
        slots.set(n + 1);
        if n % 2 == 0 {
            tx.send(job()).expect("send");
        }
        (tx, rx)
    };
    let ask = |h: &(std::sync::mpsc::Sender<u32>, Receiver<u32>)| h.1.try_recv().ok();
    let mut pool: TaskPool<Job, (std::sync::mpsc::Sender<u32>, Receiver<u32>)> = TaskPool::new(3);
    for n in 1..=4 {
        pool.exec(job(n), &patchy);
    }
    assert_eq!((pool.active_count(), pool.queue_count()), (3, 1));
    // Tasks 1 and 3 answer; task 2 stays, task 4 moves up behind it.
    assert_eq!(pool.poll(&ask, &patchy), vec![10, 30]);
    assert_eq!((pool.active_count(), pool.queue_count(), pool.completed()), (2, 0, 2));
    assert_eq!(pool.poll(&ask, &patchy), Vec::<u32>::new());
    assert_eq!((pool.active_count(), pool.completed()), (2, 2));
}

#[test]
fn pool_of_size_zero_only_queues() {
    let mut pool: TaskPool<Job, Receiver<u32>> = TaskPool::new(0);
    pool.exec(job(1), &launch);
    pool.exec(job(2), &launch);
    assert_eq!((pool.active_count(), pool.queue_count(), pool.total()), (0, 2, 2));
    assert_eq!(pool.poll(&receive, &launch), Vec::<u32>::new());
    assert_eq!(pool.queue_count(), 2);
}

#[test]
fn clearing_the_queue_keeps_what_runs() {
    let mut pool: TaskPool<Job, Receiver<u32>> = TaskPool::new(1);
    for n in 1..=3 {
        pool.exec(job(n), &launch);
    }
    pool.clear_queue();
    assert_eq!((pool.active_count(), pool.queue_count(), pool.total()), (1, 0, 3));
    assert_eq!(pool.poll(&receive, &launch), vec![10]);
    assert_eq!(pool.poll(&receive, &launch), Vec::<u32>::new());
    assert_eq!(pool.completed(), 1);
}
