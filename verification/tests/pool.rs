use lelet::pool::{Pool, IDLE_WINDOW};
use lelet::spawn_box;

#[test]
fn jobs_never_refused() {
    let mut pool = Pool::new();
    for _ in 0..10 {
        spawn_box(&mut pool);
    }
    // no idle thread existed, so each job started a thread
}

#[test]
fn idle_thread_reused() {
    let mut pool = Pool::new();
    spawn_box(&mut pool);
    pool.job_finished();
    // the cached thread takes the next job; no second thread appears
    spawn_box(&mut pool);
    pool.job_finished();
    spawn_box(&mut pool);
}

#[test]
fn idle_reclaim_at_most_one_exit() {
    let mut pool = Pool::new();
    // 100 quick jobs, all threads idle again
    for _ in 0..100 {
        spawn_box(&mut pool);
        pool.job_finished();
    }
    // after one idle window, the timeouts all fire around the same time:
    // exactly one thread is allowed to leave
    let now = IDLE_WINDOW + 1;
    let mut exits = 0;
    for _ in 0..100 {
        if pool.on_idle_timeout(now) {
            exits += 1;
        }
    }
    assert_eq!(exits, 1);
}

#[test]
fn drain_rate_spacing() {
    let mut pool = Pool::new();
    for _ in 0..5 {
        spawn_box(&mut pool);
        pool.job_finished();
    }
    assert!(pool.on_idle_timeout(0));
    assert!(!pool.on_idle_timeout(100));
    assert!(!pool.on_idle_timeout(IDLE_WINDOW - 1));
    assert!(pool.on_idle_timeout(IDLE_WINDOW));
    assert!(!pool.on_idle_timeout(IDLE_WINDOW + 1));
    assert!(pool.on_idle_timeout(2 * IDLE_WINDOW));
}
