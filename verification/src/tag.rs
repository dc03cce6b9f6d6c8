//! Per-task metadata: the scheduler's hint recording the processor that most
//! recently ran a task.

use vstd::prelude::*;

verus! {

/// Per-task metadata owned by the scheduler. The hint is `usize::MAX` when the
/// task has not been run yet, otherwise the index of the processor that most
/// recently ran it.
pub struct TaskTag {
    schedule_index_hint: usize,
}

impl TaskTag {
    /// The current hint value.
    pub closed spec fn hint(&self) -> usize {
        self.schedule_index_hint
    }

    pub fn new() -> (t: TaskTag)
        ensures
            t.hint() == usize::MAX,
    {
        TaskTag { schedule_index_hint: usize::MAX }
    }

    pub fn get_schedule_index_hint(&self) -> (r: usize)
        ensures
            r == self.hint(),
    {
        self.schedule_index_hint
    }

    /// Record the index of the processor about to run the tagged task. The
    /// store is skipped when the value is unchanged, so repeated runs on one
    /// processor write the field once.
    pub fn set_schedule_index_hint(&mut self, index: usize)
        ensures
            final(self).hint() == index,
    {
        if self.schedule_index_hint != index {
            self.schedule_index_hint = index;
        }
    }

    /// A tag carrying a given hint, used when a queued task item is turned
    /// back into a task value.
    pub fn with_hint(hint: usize) -> (t: TaskTag)
        ensures
            t.hint() == hint,
    {
        TaskTag { schedule_index_hint: hint }
    }
}

/// A schedulable unit as the scheduler sees it: an opaque identity plus its
/// tag. Polling the task's future is the caller's business; the scheduler only
/// decides where and when.
pub struct Task {
    pub id: usize,
    pub tag: TaskTag,
}

impl Task {
    /// The queue item a task becomes: identity and hint travel together
    /// through the run queues.
    pub open spec fn item(&self) -> (usize, usize) {
        (self.id, self.tag.hint())
    }

    pub fn new(id: usize) -> (t: Task)
        ensures
            t.id == id,
            t.tag.hint() == usize::MAX,
    {
        Task { id, tag: TaskTag::new() }
    }

    pub fn to_item(self) -> (r: (usize, usize))
        ensures
            r == self.item(),
    {
        (self.id, self.tag.get_schedule_index_hint())
    }

    pub fn from_item(item: (usize, usize)) -> (t: Task)
        ensures
            t.item() == item,
    {
        Task { id: item.0, tag: TaskTag::with_hint(item.1) }
    }
}

} // verus!
