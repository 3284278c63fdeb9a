use worker_pool::pool::{Dispatch, PoolError, ShutdownStep, ThreadPool, Worker, WorkerStatus};

fn taken(d: Dispatch<u32>) -> Option<u32> {
    match d {
        Dispatch::Run(job) => Some(job),
        _ => None,
    }
}

fn is_wait(d: &Dispatch<u32>) -> bool {
    matches!(d, Dispatch::Wait)
}

fn is_exit(d: &Dispatch<u32>) -> bool {
    matches!(d, Dispatch::Exit)
}

#[test]
fn zero_workers_is_invalid() {
    let r = ThreadPool::<u32>::new(0);
    assert!(matches!(r, Err(PoolError::InvalidConfiguration)));
}

#[test]
fn new_pool_has_idle_workers_in_order() {
    let pool = ThreadPool::<u32>::new(4).unwrap();
    assert_eq!(pool.size(), 4);
    assert!(pool.is_open());
    assert_eq!(pool.pending(), 0);
    for id in 0..4 {
        assert_eq!(pool.worker(id), Worker { id, status: WorkerStatus::Idle });
    }
}

#[test]
fn worker_starts_idle() {
    let w = Worker::new(7);
    assert_eq!(w.id, 7);
    assert_eq!(w.status, WorkerStatus::Idle);
}

#[test]
fn n_jobs_run_on_n_workers_at_once() {
    for n in 1..6usize {
        let mut pool = ThreadPool::<u32>::new(n).unwrap();
        for j in 0..n {
            assert_eq!(pool.execute(j as u32), Ok(()));
        }
        let mut running = 0;
        for id in 0..n {
            assert_eq!(taken(pool.take(id)), Some(id as u32));
            running += 1;
        }
        assert_eq!(running, n);
        for id in 0..n {
            assert_eq!(pool.worker(id).status, WorkerStatus::Busy);
        }
        assert_eq!(pool.pending(), 0);
    }
}

#[test]
fn every_job_is_taken_exactly_once() {
    let mut pool = ThreadPool::<u32>::new(3).unwrap();
    for j in 0..10u32 {
        pool.execute(j).unwrap();
    }
    let mut seen: Vec<u32> = Vec::new();
    loop {
        let mut progressed = false;
        for id in 0..3 {
            if pool.worker(id).status == WorkerStatus::Idle {
                if let Some(job) = taken(pool.take(id)) {
                    seen.push(job);
                    pool.complete(id);
                    progressed = true;
                }
            }
        }
        if !progressed {
            break;
        }
    }
    assert_eq!(seen, (0..10).collect::<Vec<u32>>());
    assert_eq!(pool.pending(), 0);
}

#[test]
fn idle_worker_waits_on_open_empty_queue() {
    let mut pool = ThreadPool::<u32>::new(1).unwrap();
    let d = pool.take(0);
    assert!(is_wait(&d));
    assert_eq!(pool.worker(0).status, WorkerStatus::Idle);
}

#[test]
fn submit_after_shutdown_fails() {
    let mut pool = ThreadPool::<u32>::new(2).unwrap();
    pool.execute(1).unwrap();
    assert_eq!(pool.shutdown_step(), ShutdownStep::Close);
    assert!(!pool.is_open());
    assert_eq!(pool.execute(2), Err(PoolError::PoolClosed));
    assert_eq!(pool.pending(), 1);
    // The job accepted before closing still runs; the refused one never does.
    assert_eq!(taken(pool.take(0)), Some(1));
    pool.complete(0);
    assert!(is_exit(&pool.take(0)));
    assert!(is_exit(&pool.take(1)));
}

#[test]
fn idle_pool_shuts_down_in_order() {
    let mut pool = ThreadPool::<u32>::new(3).unwrap();
    assert_eq!(pool.shutdown_step(), ShutdownStep::Close);
    for id in 0..3 {
        assert!(is_exit(&pool.take(id)));
        assert_eq!(pool.worker(id).status, WorkerStatus::Exited);
    }
    for id in 0..3 {
        assert_eq!(pool.shutdown_step(), ShutdownStep::Join(id));
        pool.mark_joined(id);
    }
    assert_eq!(pool.shutdown_step(), ShutdownStep::Done);
    assert_eq!(pool.shutdown_step(), ShutdownStep::Done);
}

#[test]
fn close_happens_once() {
    let mut pool = ThreadPool::<u32>::new(1).unwrap();
    assert_eq!(pool.shutdown_step(), ShutdownStep::Close);
    assert_eq!(pool.shutdown_step(), ShutdownStep::Join(0));
    assert_eq!(pool.shutdown_step(), ShutdownStep::Join(0));
}

#[test]
fn busy_worker_holds_up_shutdown_until_its_job_ends() {
    let mut pool = ThreadPool::<u32>::new(2).unwrap();
    pool.execute(5).unwrap();
    assert_eq!(taken(pool.take(0)), Some(5));
    assert_eq!(pool.shutdown_step(), ShutdownStep::Close);
    assert!(is_exit(&pool.take(1)));
    assert_eq!(pool.shutdown_step(), ShutdownStep::Join(0));
    // Worker 0 is still running its job: it cannot be joined yet.
    assert_eq!(pool.worker(0).status, WorkerStatus::Busy);
    pool.complete(0);
    assert!(is_exit(&pool.take(0)));
    pool.mark_joined(0);
    assert_eq!(pool.shutdown_step(), ShutdownStep::Join(1));
    pool.mark_joined(1);
    assert_eq!(pool.shutdown_step(), ShutdownStep::Done);
}

#[test]
fn two_workers_run_four_jobs_in_two_batches() {
    let mut pool = ThreadPool::<u32>::new(2).unwrap();
    for id in 1..=4u32 {
        pool.execute(id).unwrap();
    }
    let mut log: Vec<u32> = Vec::new();
    let mut batches = 0;
    while pool.pending() > 0 {
        let mut running: Vec<usize> = Vec::new();
        for w in 0..2 {
            if let Some(job) = taken(pool.take(w)) {
                log.push(job);
                running.push(w);
            }
        }
        assert_eq!(running.len(), 2);
        for w in running {
            pool.complete(w);
        }
        batches += 1;
    }
    assert_eq!(batches, 2);
    let mut sorted = log.clone();
    sorted.sort();
    assert_eq!(sorted, vec![1, 2, 3, 4]);
}

#[test]
fn crashed_worker_is_not_replaced_and_shutdown_still_ends() {
    let mut pool = ThreadPool::<u32>::new(1).unwrap();
    pool.execute(1).unwrap();
    assert_eq!(taken(pool.take(0)), Some(1));
    pool.crash(0);
    assert_eq!(pool.worker(0).status, WorkerStatus::Crashed);
    // The pool still accepts work, but no worker is left to run it.
    assert_eq!(pool.execute(2), Ok(()));
    assert_eq!(pool.pending(), 1);
    assert_eq!(pool.shutdown_step(), ShutdownStep::Close);
    assert_eq!(pool.shutdown_step(), ShutdownStep::Join(0));
    pool.mark_joined(0);
    assert_eq!(pool.shutdown_step(), ShutdownStep::Done);
    assert_eq!(pool.pending(), 1);
}
