//! Trusted surface over crossbeam-deque: the per-processor injector queue and
//! the machine-owned worker deque hold queued task items. An item is the pair
//! (task identity, schedule hint); both travel together through the queues.

use vstd::prelude::*;
use vstd::multiset::Multiset;

verus! {

/// A queued task item: (task identity, schedule index hint).
pub type TaskItem = (usize, usize);

#[verifier::external_type_specification]
#[verifier::external_body]
#[verifier::reject_recursive_types(T)]
pub struct ExInjector<T>(crossbeam_deque::Injector<T>);

#[verifier::external_type_specification]
#[verifier::external_body]
#[verifier::reject_recursive_types(T)]
pub struct ExWorker<T>(crossbeam_deque::Worker<T>);

/// The items an injector holds, front first. `crossbeam_deque::Injector` is a
/// FIFO queue: `push` appends at the back, steals take from the front.
pub uninterp spec fn injector_queue(q: crossbeam_deque::Injector<TaskItem>) -> Seq<TaskItem>;

/// The items a worker deque holds. Stealing into a deque places the batch in a
/// flavor-dependent order, so only the collection of items is named.
pub uninterp spec fn worker_tasks(w: crossbeam_deque::Worker<TaskItem>) -> Multiset<TaskItem>;

/// Relies on crossbeam_deque::Injector::new: creates an empty queue.
#[verifier::external_body]
pub fn injector_new() -> (q: crossbeam_deque::Injector<TaskItem>)
    ensures
        injector_queue(q) == Seq::<TaskItem>::empty(),
{
    crossbeam_deque::Injector::new()
}

/// Relies on crossbeam_deque::Injector::push: appends the task at the back of
/// the FIFO queue.
#[verifier::external_body]
pub fn injector_push(q: &mut crossbeam_deque::Injector<TaskItem>, item: TaskItem)
    ensures
        injector_queue(*final(q)) == injector_queue(*old(q)).push(item),
{
    q.push(item)
}

/// Relies on crossbeam_deque::Injector::steal_batch_and_pop: on a non-empty
/// queue it takes a batch of unspecified size from the front, returns the
/// front task and moves the rest of the batch into `dest`; on an empty queue
/// it reports emptiness and changes nothing. The transient `Steal::Retry`
/// outcome (a clash with a concurrent steal, which changes nothing) is
/// retried here until a definitive answer: its termination rests on the
/// other side's progress, which no sequential measure can bound.
#[verifier::external_body]
pub fn injector_steal_into(
    q: &mut crossbeam_deque::Injector<TaskItem>,
    dest: &mut crossbeam_deque::Worker<TaskItem>,
) -> (r: Option<TaskItem>)
    ensures
        injector_queue(*old(q)).len() == 0 ==> {
            &&& r is None
            &&& *final(q) == *old(q)
            &&& *final(dest) == *old(dest)
        },
        injector_queue(*old(q)).len() > 0 ==> {
            &&& r == Some(injector_queue(*old(q))[0])
            &&& exists|n: int|
                1 <= n <= injector_queue(*old(q)).len()
                && injector_queue(*final(q)) == injector_queue(*old(q)).skip(n)
                && worker_tasks(*final(dest)) == worker_tasks(*old(dest)).add(
                    injector_queue(*old(q)).subrange(1, n).to_multiset(),
                )
        },
{
    loop {
        match q.steal_batch_and_pop(dest) {
            crossbeam_deque::Steal::Success(item) => return Some(item),
            crossbeam_deque::Steal::Empty => return None,
            crossbeam_deque::Steal::Retry => {}
        }
    }
}

/// Relies on crossbeam_deque::Injector::is_empty: whether the queue holds no
/// task.
#[verifier::external_body]
pub fn injector_is_empty(q: &crossbeam_deque::Injector<TaskItem>) -> (r: bool)
    ensures
        r == (injector_queue(*q).len() == 0),
{
    q.is_empty()
}

/// Relies on crossbeam_deque::Worker::new_lifo: creates an empty deque whose
/// pop takes the most recently pushed task first.
#[verifier::external_body]
pub fn worker_new() -> (w: crossbeam_deque::Worker<TaskItem>)
    ensures
        worker_tasks(w) == Multiset::<TaskItem>::empty(),
{
    crossbeam_deque::Worker::new_lifo()
}

/// Relies on crossbeam_deque::Worker::pop: returns one of the held tasks, or
/// nothing exactly when the deque is empty. Which task comes out is the
/// deque's own (LIFO-leaning) business, so only membership is stated.
#[verifier::external_body]
pub fn worker_pop(w: &mut crossbeam_deque::Worker<TaskItem>) -> (r: Option<TaskItem>)
    ensures
        worker_tasks(*old(w)).len() == 0 ==> {
            &&& r is None
            &&& *final(w) == *old(w)
        },
        worker_tasks(*old(w)).len() > 0 ==> {
            &&& r is Some
            &&& worker_tasks(*old(w)).contains(r->Some_0)
            &&& worker_tasks(*final(w)) == worker_tasks(*old(w)).remove(r->Some_0)
        },
{
    w.pop()
}

} // verus!
