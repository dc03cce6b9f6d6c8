use lelet::lock::SimpleLock;
use lelet::queues::{worker_new, worker_pop};
use lelet::tag::Task;
use lelet::processor::Processor;
use lelet::tag::TaskTag;
use lelet::yields::{run_to_ready, PollOutcome, Yields};

#[test]
fn yields_six_polls() {
    let mut y = Yields(5);
    assert_eq!(run_to_ready(&mut y), 6);
}

#[test]
fn yields_poll_sequence() {
    let mut y = Yields(2);
    assert_eq!(y.poll(), PollOutcome::Pending);
    assert_eq!(y.poll(), PollOutcome::Pending);
    assert_eq!(y.poll(), PollOutcome::Ready);
    assert_eq!(y.poll(), PollOutcome::Ready);
}

#[test]
fn tag_hint_lifecycle() {
    let mut tag = TaskTag::new();
    assert_eq!(tag.get_schedule_index_hint(), usize::MAX);
    tag.set_schedule_index_hint(3);
    assert_eq!(tag.get_schedule_index_hint(), 3);
    tag.set_schedule_index_hint(3);
    assert_eq!(tag.get_schedule_index_hint(), 3);
    tag.set_schedule_index_hint(0);
    assert_eq!(tag.get_schedule_index_hint(), 0);
}

#[test]
fn simple_lock_excludes() {
    let mut lock = SimpleLock::new(10u64);
    assert!(!lock.is_locked());
    let guard = lock.try_lock().expect("free lock acquires");
    assert!(lock.is_locked());
    assert!(lock.try_lock().is_none());
    assert_eq!(*lock.get(&guard), 10);
    *lock.get_mut(&guard) = 11;
    assert_eq!(*lock.get(&guard), 11);
    lock.unlock(guard);
    assert!(!lock.is_locked());
    let guard = lock.try_lock().expect("free again");
    assert_eq!(*lock.get(&guard), 11);
}

#[test]
fn wake_channel_capacity_one() {
    let mut p = Processor::new(0);
    assert_eq!(p.get_last_seen(), usize::MAX);
    // first signal is delivered, the second finds the channel full
    assert!(p.wake_up());
    assert!(!p.wake_up());
    // draining takes the one signal, then the channel is empty
    assert!(p.take_signal());
    assert!(!p.take_signal());
    assert!(p.wake_up());
}

#[test]
fn injector_pop_front_order() {
    let mut p = Processor::new(0);
    assert!(p.push_then_wake_up(Task::new(1)));
    // a signal already sits in the channel: not delivered again
    assert!(!p.push_then_wake_up(Task::new(2)));
    let mut w = worker_new();
    let first = p.pop(&mut w).expect("front task");
    assert_eq!(first.id, 1);
    let mut rest = Vec::new();
    while let Some(t) = p.pop(&mut w) {
        rest.push(t.id);
    }
    while let Some(item) = worker_pop(&mut w) {
        rest.push(item.0);
    }
    rest.sort();
    assert_eq!(rest, vec![2]);
}
