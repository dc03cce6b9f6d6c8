//! A processor is a logical execution slot: it owns a dedicated injector
//! queue, a capacity-one wake signal, the id of the machine currently bound
//! to it, and a liveness timestamp that the monitor reads for stall
//! detection.

use vstd::prelude::*;
use vstd::multiset::Multiset;

use crate::machine::Machine;
use crate::queues::{injector_is_empty, injector_new, injector_push, injector_queue, injector_steal_into, worker_tasks, TaskItem};
use crate::tag::Task;

verus! {

/// The machine-id value meaning "no machine is bound".
pub const NO_MACHINE: usize = usize::MAX;

/// The last-seen value meaning "parked: idle, not stuck".
pub const PARKED: usize = usize::MAX;

/// Snoozes before the two-stage sleep gives up spinning and parks for real.
pub const BACKOFF_COMPLETE_STEPS: u32 = 10;

/// The spin stage of the two-stage sleep: a bounded number of short snoozes
/// before a processor commits to parking on its wake channel.
pub struct SleepBackoff {
    step: u32,
}

impl SleepBackoff {
    pub closed spec fn steps(&self) -> u32 {
        self.step
    }

    pub open spec fn completed(&self) -> bool {
        self.steps() >= BACKOFF_COMPLETE_STEPS
    }

    pub fn new() -> (b: SleepBackoff)
        ensures
            b.steps() == 0,
    {
        SleepBackoff { step: 0 }
    }

    pub fn is_completed(&self) -> (r: bool)
        ensures
            r == self.completed(),
    {
        self.step >= BACKOFF_COMPLETE_STEPS
    }

    pub fn snooze(&mut self)
        ensures
            !old(self).completed() ==> final(self).steps() == old(self).steps() + 1,
            old(self).completed() ==> *final(self) == *old(self),
    {
        if self.step < BACKOFF_COMPLETE_STEPS {
            self.step = self.step + 1;
        }
    }

    pub fn reset(&mut self)
        ensures
            final(self).steps() == 0,
    {
        self.step = 0;
    }
}

/// One logical execution slot.
pub struct Processor {
    index: usize,
    machine_id: usize,
    last_seen: usize,
    injector: crossbeam_deque::Injector<TaskItem>,
    wake_signal: bool,
}

impl Processor {
    /// This processor's stable position in the system's processor list.
    pub closed spec fn index(&self) -> usize {
        self.index
    }

    /// Id of the machine currently bound, `NO_MACHINE` if none.
    pub closed spec fn machine_id(&self) -> usize {
        self.machine_id
    }

    /// Tick at which the bound machine last reported progress; `PARKED` while
    /// the processor sleeps.
    pub closed spec fn last_seen(&self) -> usize {
        self.last_seen
    }

    /// The dedicated injector queue, front first.
    pub closed spec fn inj(&self) -> Seq<TaskItem> {
        injector_queue(self.injector)
    }

    /// Whether an undelivered wake signal sits in the capacity-one channel.
    pub closed spec fn signal(&self) -> bool {
        self.wake_signal
    }

    pub fn new(index: usize) -> (p: Processor)
        ensures
            p.index() == index,
            p.machine_id() == NO_MACHINE,
            p.last_seen() == PARKED,
            p.inj() == Seq::<TaskItem>::empty(),
            !p.signal(),
    {
        Processor {
            index,
            machine_id: NO_MACHINE,
            last_seen: PARKED,
            injector: injector_new(),
            wake_signal: false,
        }
    }

    pub fn get_index(&self) -> (r: usize)
        ensures
            r == self.index(),
    {
        self.index
    }

    /// Is `machine` still the one bound here? A machine re-checks this around
    /// every task it runs; a mismatch means the processor was handed away and
    /// the machine must exit.
    pub fn still_on_machine(&self, machine: &Machine) -> (r: bool)
        ensures
            r == (self.machine_id() == machine.id),
    {
        self.machine_id == machine.id
    }

    /// Whether the dedicated injector holds work.
    pub fn has_pending(&self) -> (r: bool)
        ensures
            r == (self.inj().len() > 0),
    {
        !injector_is_empty(&self.injector)
    }

    /// Will return `PARKED` when the processor is idle (always seen in the
    /// future).
    pub fn get_last_seen(&self) -> (r: usize)
        ensures
            r == self.last_seen(),
    {
        self.last_seen
    }

    /// Bind `machine` to this processor, revoking whatever machine held it.
    /// This single store is the whole hand-off protocol.
    pub fn bind(&mut self, machine: &Machine, now: usize)
        requires
            now != PARKED,
        ensures
            final(self).machine_id() == machine.id,
            final(self).last_seen() == now,
            final(self).index() == old(self).index(),
            final(self).inj() == old(self).inj(),
            final(self).signal() == old(self).signal(),
    {
        self.machine_id = machine.id;
        self.last_seen = now;
    }

    /// The monitor's revocation store: hand this processor to the machine
    /// with id `id` without touching anything else. The previously bound
    /// machine will observe the mismatch and exit.
    pub fn revoke_to(&mut self, id: usize)
        ensures
            final(self).machine_id() == id,
            final(self).last_seen() == old(self).last_seen(),
            final(self).index() == old(self).index(),
            final(self).inj() == old(self).inj(),
            final(self).signal() == old(self).signal(),
    {
        self.machine_id = id;
    }

    /// Heartbeat: report progress at tick `now`.
    pub fn mark_seen(&mut self, now: usize)
        requires
            now != PARKED,
        ensures
            final(self).last_seen() == now,
            final(self).machine_id() == old(self).machine_id(),
            final(self).index() == old(self).index(),
            final(self).inj() == old(self).inj(),
            final(self).signal() == old(self).signal(),
    {
        self.last_seen = now;
    }

    /// Advertise "idle, not stuck" before blocking on the wake channel, so
    /// the monitor does not mistake a sleeping processor for a stalled one.
    pub fn park(&mut self)
        ensures
            final(self).last_seen() == PARKED,
            final(self).machine_id() == old(self).machine_id(),
            final(self).index() == old(self).index(),
            final(self).inj() == old(self).inj(),
            final(self).signal() == old(self).signal(),
    {
        self.last_seen = PARKED;
    }

    /// Deliver a wake signal; returns whether the capacity-one channel was
    /// empty, i.e. whether this call is the one that roused the sleeper.
    pub fn wake_up(&mut self) -> (delivered: bool)
        ensures
            delivered == !old(self).signal(),
            final(self).signal(),
            final(self).index() == old(self).index(),
            final(self).machine_id() == old(self).machine_id(),
            final(self).last_seen() == old(self).last_seen(),
            final(self).inj() == old(self).inj(),
    {
        if self.wake_signal {
            false
        } else {
            self.wake_signal = true;
            true
        }
    }

    /// Take the pending wake signal, if any: the non-blocking flush a machine
    /// does before inspecting the injector, and the receive a parked machine
    /// wakes on.
    pub fn take_signal(&mut self) -> (had: bool)
        ensures
            had == old(self).signal(),
            !final(self).signal(),
            final(self).index() == old(self).index(),
            final(self).machine_id() == old(self).machine_id(),
            final(self).last_seen() == old(self).last_seen(),
            final(self).inj() == old(self).inj(),
    {
        let had = self.wake_signal;
        self.wake_signal = false;
        had
    }

    /// Queue a task on this processor's injector, then try to rouse it.
    /// Returns whether the wake signal was actually delivered.
    pub fn push_then_wake_up(&mut self, t: Task) -> (delivered: bool)
        ensures
            final(self).inj() == old(self).inj().push(t.item()),
            delivered == !old(self).signal(),
            final(self).signal(),
            final(self).index() == old(self).index(),
            final(self).machine_id() == old(self).machine_id(),
            final(self).last_seen() == old(self).last_seen(),
    {
        let item = t.to_item();
        injector_push(&mut self.injector, item);
        self.wake_up()
    }

    /// Pull a batch from this processor's injector into the caller's worker
    /// deque and hand back the front task, or nothing when the injector is
    /// empty.
    pub fn pop(&mut self, dest: &mut crossbeam_deque::Worker<TaskItem>) -> (r: Option<Task>)
        ensures
            final(self).index() == old(self).index(),
            final(self).machine_id() == old(self).machine_id(),
            final(self).last_seen() == old(self).last_seen(),
            final(self).signal() == old(self).signal(),
            old(self).inj().len() == 0 ==> {
                &&& r is None
                &&& *final(self) == *old(self)
                &&& *final(dest) == *old(dest)
            },
            old(self).inj().len() > 0 ==> {
                &&& r is Some
                &&& r->Some_0.item() == old(self).inj()[0]
                &&& exists|n: int|
                    1 <= n <= old(self).inj().len()
                    && final(self).inj() == old(self).inj().skip(n)
                    && worker_tasks(*final(dest)) == worker_tasks(*old(dest)).add(
                        old(self).inj().subrange(1, n).to_multiset(),
                    )
            },
    {
        match injector_steal_into(&mut self.injector, dest) {
            Some(item) => Some(Task::from_item(item)),
            None => None,
        }
    }
}

/// The tasks an injector sequence stands for, as a collection.
pub open spec fn inj_tasks(p: Processor) -> Multiset<TaskItem> {
    p.inj().to_multiset()
}

} // verus!
