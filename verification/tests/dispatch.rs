use http_pool_server::pool::{saturate_pool, shutdown_and_drain, WorkerPool, WorkerState};

fn executing_count(p: &WorkerPool) -> usize {
    p.workers
        .iter()
        .filter(|w| matches!(w, WorkerState::Executing(_)))
        .count()
}

#[test]
fn new_pool_is_idle_and_empty() {
    let p = WorkerPool::new(4);
    assert_eq!(p.workers, vec![WorkerState::Idle; 4]);
    assert!(p.pending.is_empty());
    assert!(p.completed.is_empty());
    assert_eq!(p.submitted, 0);
    assert!(p.accepting);
}

#[test]
fn jobs_are_delivered_fifo() {
    let mut p = WorkerPool::new(1);
    assert_eq!(p.execute(), 0);
    assert_eq!(p.execute(), 1);
    assert_eq!(p.execute(), 2);
    assert_eq!(p.pending, vec![0, 1, 2]);
    assert_eq!(p.take_job(0), 0);
    assert_eq!(p.finish_job(0), 0);
    assert_eq!(p.take_job(0), 1);
    assert_eq!(p.finish_job(0), 1);
    assert_eq!(p.take_job(0), 2);
    assert_eq!(p.finish_job(0), 2);
    assert_eq!(p.completed, vec![0, 1, 2]);
}

#[test]
fn n_jobs_occupy_n_workers_and_one_more_waits() {
    let mut p = WorkerPool::new(2);
    p.execute();
    p.execute();
    p.take_job(0);
    p.take_job(1);
    assert_eq!(p.workers, vec![WorkerState::Executing(0), WorkerState::Executing(1)]);
    assert_eq!(executing_count(&p), 2);

    // a third job finds every worker busy and stays queued
    let extra = p.execute();
    assert_eq!(extra, 2);
    assert_eq!(p.pending, vec![2]);

    // only once a worker finishes can the waiting job be taken
    p.finish_job(1);
    assert_eq!(p.workers[1], WorkerState::Idle);
    assert_eq!(p.take_job(1), 2);
    assert_eq!(p.pending, Vec::<u64>::new());
}

#[test]
fn saturation_holds_for_several_sizes() {
    for size in [1usize, 2, 3, 8] {
        let p = saturate_pool(size);
        assert_eq!(p.workers.len(), size);
        assert_eq!(executing_count(&p), size);
        assert_eq!(p.pending.len(), 1);
    }
}

#[test]
fn slow_job_does_not_block_fast_jobs() {
    // two workers; a slow job is submitted first, two fast ones after
    let mut p = WorkerPool::new(2);
    let slow = p.execute();
    let fast_a = p.execute();
    let fast_b = p.execute();
    assert_eq!(p.take_job(0), slow);
    assert_eq!(p.take_job(1), fast_a);
    // the other worker serves both fast jobs while the slow one runs
    assert_eq!(p.finish_job(1), fast_a);
    assert_eq!(p.take_job(1), fast_b);
    assert_eq!(p.finish_job(1), fast_b);
    assert_eq!(p.finish_job(0), slow);
    // completion order is not submission order
    assert_eq!(p.completed, vec![fast_a, fast_b, slow]);
}

#[test]
fn shutdown_drains_all_accepted_jobs() {
    let mut p = WorkerPool::new(2);
    for _ in 0..3 {
        p.execute();
    }
    p.take_job(0);
    p.take_job(1);
    p.begin_shutdown();
    // the queue is closed: nothing further may be submitted
    assert!(!p.accepting);
    // jobs accepted before shutdown still run to completion
    p.finish_job(0);
    p.take_job(0);
    p.finish_job(1);
    p.finish_job(0);
    assert_eq!(p.pending, Vec::<u64>::new());
    for j in [0u64, 1, 2] {
        assert!(p.completed.contains(&j));
    }
    // with the queue closed and drained, the workers exit
    p.retire_worker(0);
    p.retire_worker(1);
    assert_eq!(p.workers, vec![WorkerState::Terminated, WorkerState::Terminated]);
}

#[test]
fn drain_completes_every_accepted_job() {
    let mut p = WorkerPool::new(3);
    for _ in 0..7 {
        p.execute();
    }
    p.take_job(0);
    p.take_job(2);
    shutdown_and_drain(&mut p);
    assert!(!p.accepting);
    assert_eq!(p.workers, vec![WorkerState::Terminated; 3]);
    assert!(p.pending.is_empty());
    let mut done = p.completed.clone();
    done.sort();
    assert_eq!(done, vec![0, 1, 2, 3, 4, 5, 6]);
}

#[test]
fn idle_shutdown_retires_workers() {
    let mut p = WorkerPool::new(1);
    p.begin_shutdown();
    p.retire_worker(0);
    assert_eq!(p.workers, vec![WorkerState::Terminated]);
    assert_eq!(p.completed, Vec::<u64>::new());
}
