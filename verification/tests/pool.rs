use hello_web_server::Job;
use hello_web_server::ThreadPool;
use std::sync::Arc;
use std::sync::Mutex;
use std::time::Duration;
use std::time::Instant;

/// Busy-waits for the given duration without yielding the thread.
fn spin_for(duration: Duration) {
    let start = Instant::now();
    while start.elapsed() < duration {}
}

/// A job that optionally spins for a while, then appends its marker to a
/// shared, lock-protected log.
struct MarkJob {
    marker: u64,
    delay: Duration,
    log: Arc<Mutex<Vec<u64>>>,
}

impl Job for MarkJob {
    fn run(self) {
        spin_for(self.delay);
        self.log.lock().unwrap().push(self.marker);
    }
}

/// A job that records the start and end instant of its execution, relative
/// to a shared epoch, into a shared log.
struct IntervalJob {
    epoch: Instant,
    work: Duration,
    log: Arc<Mutex<Vec<(u128, u128)>>>,
}

impl Job for IntervalJob {
    fn run(self) {
        let start = self.epoch.elapsed().as_nanos();
        spin_for(self.work);
        let end = self.epoch.elapsed().as_nanos();
        self.log.lock().unwrap().push((start, end));
    }
}

#[test]
fn new_spawns_requested_workers_and_runs_nothing() {
    let log: Arc<Mutex<Vec<u64>>> = Arc::new(Mutex::new(Vec::new()));
    let mut pool: ThreadPool<MarkJob> = ThreadPool::new(3);
    assert_eq!(pool.worker_count(), 3);
    assert!(pool.is_live());
    spin_for(Duration::from_millis(30));
    assert_eq!(log.lock().unwrap().len(), 0);
    let joined = pool.shutdown();
    assert_eq!(joined, 3);
    assert_eq!(log.lock().unwrap().len(), 0);
}

#[test]
fn zero_size_is_rejected() {
    let pool: Option<ThreadPool<MarkJob>> = ThreadPool::try_new(0);
    assert!(pool.is_none());
}

#[test]
fn positive_size_is_accepted() {
    let pool: Option<ThreadPool<MarkJob>> = ThreadPool::try_new(2);
    let mut pool = pool.expect("a positive size must be accepted");
    assert_eq!(pool.worker_count(), 2);
    pool.shutdown();
}

#[test]
fn shutdown_waits_for_all_submitted_jobs() {
    let log: Arc<Mutex<Vec<u64>>> = Arc::new(Mutex::new(Vec::new()));
    let mut pool: ThreadPool<MarkJob> = ThreadPool::new(3);
    for marker in 0..5u64 {
        pool.execute(MarkJob {
            marker,
            delay: Duration::from_millis(10),
            log: Arc::clone(&log),
        });
    }
    let joined = pool.shutdown();
    assert_eq!(joined, 3);
    let mut seen = log.lock().unwrap().clone();
    seen.sort();
    assert_eq!(seen, vec![0, 1, 2, 3, 4]);
}

#[test]
fn two_markers_each_recorded_exactly_once() {
    let log: Arc<Mutex<Vec<u64>>> = Arc::new(Mutex::new(Vec::new()));
    let mut pool: ThreadPool<MarkJob> = ThreadPool::new(2);
    pool.execute(MarkJob {
        marker: 1,
        delay: Duration::from_millis(20),
        log: Arc::clone(&log),
    });
    pool.execute(MarkJob {
        marker: 2,
        delay: Duration::from_millis(20),
        log: Arc::clone(&log),
    });
    pool.shutdown();
    let mut seen = log.lock().unwrap().clone();
    seen.sort();
    assert_eq!(seen, vec![1, 2]);
}

#[test]
fn single_worker_never_overlaps_jobs() {
    let log: Arc<Mutex<Vec<(u128, u128)>>> = Arc::new(Mutex::new(Vec::new()));
    let epoch = Instant::now();
    let mut pool: ThreadPool<IntervalJob> = ThreadPool::new(1);
    for _ in 0..4 {
        pool.execute(IntervalJob {
            epoch,
            work: Duration::from_millis(10),
            log: Arc::clone(&log),
        });
    }
    pool.shutdown();
    let mut intervals = log.lock().unwrap().clone();
    assert_eq!(intervals.len(), 4);
    intervals.sort();
    for pair in intervals.windows(2) {
        assert!(
            pair[0].1 <= pair[1].0,
            "intervals overlap: {:?} and {:?}",
            pair[0],
            pair[1]
        );
    }
}

#[test]
fn repeated_shutdown_joins_each_worker_once() {
    let mut pool: ThreadPool<MarkJob> = ThreadPool::new(2);
    assert!(pool.is_live());
    let first = pool.shutdown();
    assert_eq!(first, 2);
    assert!(!pool.is_live());
    let second = pool.shutdown();
    assert_eq!(second, 0);
    assert!(!pool.is_live());
    assert_eq!(pool.worker_count(), 2);
}

#[test]
fn eight_indexed_jobs_on_four_workers() {
    let log: Arc<Mutex<Vec<u64>>> = Arc::new(Mutex::new(Vec::new()));
    let mut pool: ThreadPool<MarkJob> = ThreadPool::new(4);
    for marker in 0..8u64 {
        pool.execute(MarkJob {
            marker,
            delay: Duration::from_millis(5),
            log: Arc::clone(&log),
        });
    }
    pool.shutdown();
    let mut seen = log.lock().unwrap().clone();
    seen.sort();
    assert_eq!(seen, vec![0, 1, 2, 3, 4, 5, 6, 7]);
}

#[test]
fn slow_job_does_not_block_a_second_worker() {
    let log: Arc<Mutex<Vec<u64>>> = Arc::new(Mutex::new(Vec::new()));
    let mut pool: ThreadPool<MarkJob> = ThreadPool::new(2);
    pool.execute(MarkJob {
        marker: 65,
        delay: Duration::from_millis(200),
        log: Arc::clone(&log),
    });
    pool.execute(MarkJob {
        marker: 66,
        delay: Duration::from_millis(0),
        log: Arc::clone(&log),
    });
    pool.shutdown();
    let seen = log.lock().unwrap().clone();
    let mut sorted = seen.clone();
    sorted.sort();
    assert_eq!(sorted, vec![65, 66]);
    let fast_at = seen.iter().position(|&m| m == 66).unwrap();
    let slow_at = seen.iter().position(|&m| m == 65).unwrap();
    assert!(
        fast_at <= slow_at,
        "the fast job should finish no later than the sleeping one: {:?}",
        seen
    );
}
