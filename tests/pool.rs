use std::cell::{Cell, RefCell};
use std::rc::Rc;

use worker_pool::{join_report, PoolError, WorkerPool, WorkerState, WorkerStep};

type Task = Box<dyn FnOnce() -> Result<(), String>>;

fn task<F: FnOnce() + 'static>(f: F) -> Task {
    Box::new(move || {
        f();
        Ok(())
    })
}

/// Lets every idle worker, in id order, ask for work once; runs what each is
/// handed, then marks each idle again. Returns how many ran in this round.
fn round(pool: &mut WorkerPool<Task>, peak_busy: &mut usize) -> usize {
    let mut running: Vec<(usize, Task)> = Vec::new();
    for id in 0..pool.size() {
        if pool.worker_state(id) == Some(WorkerState::Idle) {
            if let WorkerStep::Run(t) = pool.next_task(id) {
                running.push((id, t));
            }
        }
    }
    let busy = (0..pool.size())
        .filter(|&id| pool.worker_state(id) == Some(WorkerState::Busy))
        .count();
    *peak_busy = (*peak_busy).max(busy);
    let n = running.len();
    for (id, t) in running {
        let _ = t();
        pool.finish_task(id);
    }
    n
}

#[test]
fn thousand_increments_on_four_workers() {
    let mut pool: WorkerPool<Task> = WorkerPool::new(4).unwrap();
    let counter = Rc::new(Cell::new(0u32));
    for _ in 0..1000 {
        let c = counter.clone();
        assert_eq!(pool.execute(task(move || c.set(c.get() + 1))), Ok(()));
    }
    let mut peak = 0usize;
    while round(&mut pool, &mut peak) > 0 {}
    assert_eq!(counter.get(), 1000);
    assert_eq!(peak, 4);
    assert_eq!(pool.pending_len(), 0);
}

#[test]
fn submission_after_shutdown_is_refused_and_never_runs() {
    let mut pool: WorkerPool<Task> = WorkerPool::new(2).unwrap();
    let ran = Rc::new(Cell::new(false));
    pool.shutdown();
    assert!(pool.is_shutting_down());
    let r = ran.clone();
    assert_eq!(pool.execute(task(move || r.set(true))), Err(PoolError::PoolShuttingDown));
    assert_eq!(pool.pending_len(), 0);
    for id in 0..2 {
        assert!(matches!(pool.next_task(id), WorkerStep::Exit));
    }
    assert!(!ran.get());
}

#[test]
fn shutdown_with_tasks_in_flight_drains_then_exits() {
    let mut pool: WorkerPool<Task> = WorkerPool::new(2).unwrap();
    let done = Rc::new(RefCell::new(Vec::new()));
    for k in 0..3 {
        let d = done.clone();
        pool.execute(task(move || d.borrow_mut().push(k))).unwrap();
    }
    // worker 0 is mid-task when shutdown begins
    let first = match pool.next_task(0) {
        WorkerStep::Run(t) => t,
        _ => panic!("expected a task"),
    };
    pool.shutdown();
    // worker 1 still gets the queued tasks, then is told to exit
    for _ in 0..2 {
        match pool.next_task(1) {
            WorkerStep::Run(t) => {
                t().unwrap();
                pool.finish_task(1);
            }
            _ => panic!("queued tasks run after shutdown began"),
        }
    }
    assert!(matches!(pool.next_task(1), WorkerStep::Exit));
    first().unwrap();
    pool.finish_task(0);
    assert!(matches!(pool.next_task(0), WorkerStep::Exit));
    assert_eq!(pool.worker_state(0), Some(WorkerState::Exited));
    assert_eq!(pool.worker_state(1), Some(WorkerState::Exited));
    let mut seen = done.borrow().clone();
    seen.sort();
    assert_eq!(seen, vec![0, 1, 2]);
    assert_eq!(join_report(&vec![true, true]), Ok(()));
}

#[test]
fn failing_task_does_not_stop_its_worker() {
    let mut pool: WorkerPool<Task> = WorkerPool::new(1).unwrap();
    let ok = Rc::new(Cell::new(false));
    pool.execute(Box::new(|| Err(String::from("task failed")))).unwrap();
    let o = ok.clone();
    pool.execute(task(move || o.set(true))).unwrap();
    match pool.next_task(0) {
        WorkerStep::Run(t) => assert!(t().is_err()),
        _ => panic!("expected the failing task"),
    }
    pool.finish_task(0);
    assert_eq!(pool.worker_state(0), Some(WorkerState::Idle));
    match pool.next_task(0) {
        WorkerStep::Run(t) => assert_eq!(t(), Ok(())),
        _ => panic!("expected the normal task"),
    }
    pool.finish_task(0);
    assert!(ok.get());
}

#[test]
fn size_zero_is_invalid() {
    let r: Result<WorkerPool<Task>, PoolError> = WorkerPool::new(0);
    assert_eq!(r.err(), Some(PoolError::InvalidPoolSize));
}

#[test]
fn size_one_runs_serially_in_submission_order() {
    let mut pool: WorkerPool<Task> = WorkerPool::new(1).unwrap();
    assert_eq!(pool.size(), 1);
    let order = Rc::new(RefCell::new(Vec::new()));
    for k in 0..5 {
        let o = order.clone();
        pool.execute(task(move || o.borrow_mut().push(k))).unwrap();
    }
    let mut peak = 0usize;
    while round(&mut pool, &mut peak) > 0 {}
    assert_eq!(peak, 1);
    assert_eq!(*order.borrow(), vec![0, 1, 2, 3, 4]);
}

#[test]
fn earlier_submission_delivered_first() {
    let mut pool: WorkerPool<&str> = WorkerPool::new(3).unwrap();
    pool.execute("A").unwrap();
    pool.execute("B").unwrap();
    assert!(matches!(pool.next_task(2), WorkerStep::Run("A")));
    assert!(matches!(pool.next_task(0), WorkerStep::Run("B")));
    assert_eq!(pool.worker_state(1), Some(WorkerState::Idle));
}

#[test]
fn idle_worker_waits_while_open_and_empty() {
    let mut pool: WorkerPool<u8> = WorkerPool::new(2).unwrap();
    assert!(matches!(pool.next_task(0), WorkerStep::Wait));
    assert_eq!(pool.worker_state(0), Some(WorkerState::Idle));
    assert_eq!(pool.worker_state(2), None);
    pool.execute(9).unwrap();
    assert!(matches!(pool.next_task(0), WorkerStep::Run(9)));
    assert_eq!(pool.worker_state(0), Some(WorkerState::Busy));
}

#[test]
fn shutdown_twice_is_shutdown_once() {
    let mut pool: WorkerPool<u8> = WorkerPool::new(1).unwrap();
    pool.execute(1).unwrap();
    pool.shutdown();
    pool.shutdown();
    assert_eq!(pool.pending_len(), 1);
    assert!(matches!(pool.next_task(0), WorkerStep::Run(1)));
    pool.finish_task(0);
    assert!(matches!(pool.next_task(0), WorkerStep::Exit));
}

#[test]
fn join_failures_are_collected_for_every_worker() {
    assert_eq!(
        join_report(&vec![true, false, true, false]),
        Err(PoolError::WorkerJoinFailed(vec![1, 3]))
    );
    assert_eq!(join_report(&vec![false]), Err(PoolError::WorkerJoinFailed(vec![0])));
    assert_eq!(join_report(&vec![]), Ok(()));
}
