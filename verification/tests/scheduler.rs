use std::collections::HashSet;

use lelet::queues::{worker_new, worker_pop};
use lelet::system::{Step, System, MAX_RUNS};
use lelet::tag::Task;
use lelet::processor::SleepBackoff;
use lelet::{mark_blocking, set_num_cpus};

#[test]
fn simple_spawn_run() {
    let mut sys = System::new(1);
    let m = sys.new_machine(0);
    sys.bind_machine(&m);
    sys.push(Task::new(42));
    let mut worker = worker_new();
    let mut counter: usize = 0;
    let mut backoff = SleepBackoff::new();
    match sys.find_task(&m, &mut worker, &mut counter, &mut backoff) {
        Step::Run(t) => {
            assert_eq!(t.id, 42);
            let t = sys.begin_run(&m, t).expect("machine still owns the processor");
            assert_eq!(t.id, 42);
            assert!(sys.after_run(&m, &mut counter));
            assert_eq!(counter, 1);
        }
        _ => panic!("a submitted task must be found"),
    }
}

#[test]
fn round_robin_spread_and_drain() {
    let mut sys = System::new(4);
    for i in 0..1000usize {
        sys.push(Task::new(i));
    }
    let mut ids: HashSet<usize> = HashSet::new();
    let mut sum: usize = 0;
    let mut worker = worker_new();
    for k in 0..4usize {
        while let Some(t) = sys.pop(k, &mut worker) {
            assert!(ids.insert(t.id));
            sum += t.id;
        }
        while let Some(item) = worker_pop(&mut worker) {
            assert!(ids.insert(item.0));
            sum += item.0;
        }
    }
    assert_eq!(ids.len(), 1000);
    for i in 0..1000usize {
        assert!(ids.contains(&i));
    }
    assert_eq!(sum, 499500);
}

#[test]
fn reconfigure_after_use_fails() {
    let mut sys = System::new(2);
    assert!(set_num_cpus(&mut sys, 4).is_ok());
    assert_eq!(sys.num_cpus(), 4);
    sys.push(Task::new(1));
    assert!(set_num_cpus(&mut sys, 8).is_err());
    assert_eq!(sys.num_cpus(), 4);
}

#[test]
fn stalled_processor_revoked() {
    let mut sys = System::new(2);
    let m = sys.new_machine(0);
    sys.bind_machine(&m);
    // last_seen == 0; within the threshold the binding holds
    for _ in 0..10 {
        sys.sysmon_tick();
        assert!(sys.processor(0).still_on_machine(&m));
    }
    // one tick past the threshold: the monitor rebinds processor 0
    sys.sysmon_tick();
    assert!(!sys.processor(0).still_on_machine(&m));
    // the parked processor 1 is never touched
    assert_eq!(sys.processor(1).get_last_seen(), usize::MAX);
}

#[test]
fn parked_processor_not_revoked() {
    let mut sys = System::new(1);
    for _ in 0..20 {
        sys.sysmon_tick();
    }
    // still unbound, never revoked: parked means idle, not stuck
    assert_eq!(sys.processor(0).get_last_seen(), usize::MAX);
}

#[test]
fn mark_blocking_rebinds_and_work_continues() {
    let mut sys = System::new(1);
    let m0 = sys.new_machine(0);
    sys.bind_machine(&m0);
    // task A announces it will block; a fresh machine takes the processor
    let m1 = mark_blocking(&mut sys, &m0);
    assert!(!sys.processor(0).still_on_machine(&m0));
    assert!(sys.processor(0).still_on_machine(&m1));
    assert_ne!(m0.id, m1.id);
    // task B still runs, despite one configured processor
    sys.push(Task::new(7));
    let mut worker = worker_new();
    let mut counter: usize = 0;
    let mut backoff = SleepBackoff::new();
    match sys.find_task(&m1, &mut worker, &mut counter, &mut backoff) {
        Step::Run(t) => {
            assert_eq!(t.id, 7);
            assert!(sys.begin_run(&m1, t).is_some());
        }
        _ => panic!("the fresh machine must find the queued task"),
    }
    // the old machine's next ownership test fails and it exits
    let mut c0: usize = 0;
    assert!(!sys.after_run(&m0, &mut c0));
}

#[test]
fn revoked_machine_pushes_task_back() {
    let mut sys = System::new(1);
    let m0 = sys.new_machine(0);
    sys.bind_machine(&m0);
    sys.push(Task::new(3));
    let mut worker = worker_new();
    let mut counter: usize = 0;
    let mut backoff = SleepBackoff::new();
    let t = match sys.find_task(&m0, &mut worker, &mut counter, &mut backoff) {
        Step::Run(t) => t,
        _ => panic!("task expected"),
    };
    // the processor is handed away before the poll starts
    let _m1 = mark_blocking(&mut sys, &m0);
    assert!(sys.begin_run(&m0, t).is_none());
    // the task went back through the submit path, nothing lost
    let mut w2 = worker_new();
    let back = sys.pop(0, &mut w2).expect("the task must be queued again");
    assert_eq!(back.id, 3);
}

#[test]
fn injector_checked_after_run_budget() {
    let mut sys = System::new(1);
    let m = sys.new_machine(0);
    sys.bind_machine(&m);
    sys.push(Task::new(1));
    sys.push(Task::new(2));
    sys.push(Task::new(3));
    let mut worker = worker_new();
    let mut counter: usize = 0;
    let mut backoff = SleepBackoff::new();
    // first pass drains the injector front and leaves a batch in the deque
    match sys.find_task(&m, &mut worker, &mut counter, &mut backoff) {
        Step::Run(t) => assert_eq!(t.id, 1),
        _ => panic!("task expected"),
    }
    sys.push(Task::new(99));
    // the budget is spent: the injector must be inspected before the deque
    counter = MAX_RUNS;
    match sys.find_task(&m, &mut worker, &mut counter, &mut backoff) {
        Step::Run(t) => assert_eq!(t.id, 3, "the injector front wins over deque work"),
        _ => panic!("task expected"),
    }
    assert_eq!(counter, 0);
}

#[test]
fn hint_set_on_run_and_routes_back() {
    let mut sys = System::new(2);
    let m = sys.new_machine(1);
    sys.bind_machine(&m);
    let task = Task::new(5);
    assert_eq!(task.tag.get_schedule_index_hint(), usize::MAX);
    let t = sys.begin_run(&m, task).expect("owner runs");
    assert_eq!(t.tag.get_schedule_index_hint(), 1);
    // when the task wakes, the hint routes it back to processor 1
    sys.push(t);
    let mut worker = worker_new();
    assert!(sys.pop(0, &mut worker).is_none());
    let back = sys.pop(1, &mut worker).expect("routed by hint");
    assert_eq!(back.id, 5);
    assert_eq!(back.tag.get_schedule_index_hint(), 1);
}

#[test]
fn ballot_holds_one_machine() {
    let mut sys = System::new(1);
    let m0 = sys.new_machine(0);
    let m1 = sys.new_machine(0);
    sys.bind_machine(&m0);
    sys.bind_machine(&m1);
    assert!(!sys.processor(0).still_on_machine(&m0));
    assert!(sys.processor(0).still_on_machine(&m1));
}

#[test]
fn no_work_leads_to_park_and_wake() {
    let mut sys = System::new(1);
    let m = sys.new_machine(0);
    sys.bind_machine(&m);
    let mut worker = worker_new();
    let mut counter: usize = 0;
    let mut backoff = SleepBackoff::new();
    // the spin stage first
    let mut parked = false;
    for _ in 0..64 {
        match sys.find_task(&m, &mut worker, &mut counter, &mut backoff) {
            Step::Snooze => {}
            Step::Park => {
                parked = true;
                break;
            }
            Step::Run(_) => panic!("no work exists"),
        }
    }
    assert!(parked, "the spin budget runs out and the machine parks");
    assert_eq!(sys.processor(0).get_last_seen(), usize::MAX);
    // a submission wakes the parked processor
    let delivered = sys.push(Task::new(8));
    assert!(delivered);
    sys.finish_sleep(&m, &mut backoff);
    assert_ne!(sys.processor(0).get_last_seen(), usize::MAX);
    match sys.find_task(&m, &mut worker, &mut counter, &mut backoff) {
        Step::Run(t) => assert_eq!(t.id, 8),
        _ => panic!("the queued task must be found after the wake"),
    }
}

#[test]
fn steal_relieves_a_peer() {
    let mut sys = System::new(2);
    // a task pinned on processor 1, but the machine of processor 0 is idle
    let mut t = Task::new(11);
    t.tag.set_schedule_index_hint(1);
    sys.push(t);
    let m = sys.new_machine(0);
    sys.bind_machine(&m);
    let mut worker = worker_new();
    let stolen = sys.steal(0, &mut worker).expect("peer injector holds work");
    assert_eq!(stolen.id, 11);
}

#[test]
fn no_lost_work_under_interleaving() {
    let mut sys = System::new(3);
    let m = sys.new_machine(0);
    sys.bind_machine(&m);
    for i in 0..50usize {
        sys.push(Task::new(i));
    }
    let mut seen: HashSet<usize> = HashSet::new();
    let mut worker = worker_new();
    let mut counter: usize = 0;
    let mut backoff = SleepBackoff::new();
    loop {
        match sys.find_task(&m, &mut worker, &mut counter, &mut backoff) {
            Step::Run(t) => {
                let t = sys.begin_run(&m, t).expect("owner");
                assert!(seen.insert(t.id));
                assert!(sys.after_run(&m, &mut counter));
            }
            Step::Snooze | Step::Park => break,
        }
    }
    assert_eq!(seen.len(), 50, "every submission is polled, none lost");
}

#[test]
fn monitor_parks_only_when_idle() {
    let mut sys = System::new(2);
    assert!(sys.sysmon_should_park());
    sys.push(Task::new(1));
    assert!(!sys.sysmon_should_park());
    let mut worker = worker_new();
    let t = sys.pop(0, &mut worker).expect("queued");
    assert_eq!(t.id, 1);
    assert!(sys.sysmon_should_park());
    // a machine reporting progress also keeps the monitor awake
    let m = sys.new_machine(0);
    sys.bind_machine(&m);
    assert!(!sys.sysmon_should_park());
}

#[test]
fn push_wakes_monitor_when_nothing_is_hot() {
    let mut sys = System::new(1);
    assert!(!sys.take_sysmon_wake());
    // first submission delivers the wake signal itself: no monitor wake
    assert!(sys.push(Task::new(1)));
    assert!(!sys.take_sysmon_wake());
    // the signal is still pending and every processor is parked: the second
    // submission asks the monitor to re-evaluate
    assert!(!sys.push(Task::new(2)));
    assert!(sys.take_sysmon_wake());
    assert!(!sys.take_sysmon_wake());
}

#[test]
fn retired_worker_returns_its_tasks() {
    let mut sys = System::new(1);
    for i in 0..6usize {
        sys.push(Task::new(i));
    }
    let mut worker = worker_new();
    // pops move a batch into the worker deque
    let first = sys.pop(0, &mut worker).expect("queued");
    assert_eq!(first.id, 0);
    // the machine exits: whatever its deque held must be queued again
    sys.retire_worker(&mut worker);
    assert!(worker_pop(&mut worker).is_none());
    let mut seen = HashSet::new();
    let mut w2 = worker_new();
    loop {
        match sys.pop(0, &mut w2) {
            Some(t) => {
                seen.insert(t.id);
            }
            None => {
                match worker_pop(&mut w2) {
                    Some(item) => {
                        seen.insert(item.0);
                    }
                    None => break,
                }
            }
        }
    }
    for i in 1..6usize {
        assert!(seen.contains(&i), "task {} must survive the machine exit", i);
    }
}
