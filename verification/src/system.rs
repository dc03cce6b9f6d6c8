//! The process-wide scheduler state: the fixed set of processors, the
//! monotonic tick, the round-robin submission counter, the machine-id mint
//! and the monitor's wake flag. All scheduling decisions live here: where a
//! submission goes, in what order a machine looks for work, and when the
//! monitor revokes a stalled processor.

use vstd::prelude::*;
use vstd::multiset::Multiset;

use crate::machine::Machine;
use crate::processor::{inj_tasks, Processor, SleepBackoff, NO_MACHINE, PARKED};
use crate::queues::{worker_pop, worker_tasks, TaskItem};
use crate::tag::Task;

verus! {

broadcast use
    vstd::multiset::group_multiset_axioms,
    vstd::seq_lib::group_to_multiset_ensures;

/// Number of local polls in a row before the injector queue must be
/// inspected, so queued submissions cannot starve behind a busy deque.
pub const MAX_RUNS: usize = 64;

/// Ticks a non-parked processor may go unseen before the monitor revokes it.
pub const STALL_THRESHOLD: usize = 10;

/// All task items queued on the injectors of a processor list.
pub open spec fn pending(procs: Seq<Processor>) -> Multiset<TaskItem>
    decreases procs.len(),
{
    if procs.len() == 0 {
        Multiset::empty()
    } else {
        pending(procs.drop_last()).add(inj_tasks(procs.last()))
    }
}

/// The task items an optional task stands for.
pub open spec fn opt_items(r: Option<Task>) -> Multiset<TaskItem> {
    match r {
        Some(t) => Multiset::empty().insert(t.item()),
        None => Multiset::empty(),
    }
}

/// Replacing one processor exchanges exactly its injector contents in the
/// pending-task account.
pub proof fn lemma_pending_update(s: Seq<Processor>, k: int, p: Processor)
    requires
        0 <= k < s.len(),
    ensures
        pending(s.update(k, p)).add(inj_tasks(s[k])) == pending(s).add(inj_tasks(p)),
    decreases s.len(),
{
    let su = s.update(k, p);
    assert(su.len() == s.len());
    if k == s.len() - 1 {
        assert(su.drop_last() =~= s.drop_last());
        assert(su.last() == p);
        assert(s.last() == s[k]);
        assert(pending(su).add(inj_tasks(s[k])) =~= pending(s).add(inj_tasks(p)));
    } else {
        let dl = s.drop_last();
        let dlu = dl.update(k, p);
        assert(su.drop_last() =~= dlu);
        assert(su.last() == s.last());
        assert(dl[k] == s[k]);
        lemma_pending_update(dl, k, p);
        assert(pending(su) == pending(dlu).add(inj_tasks(s.last())));
        assert(pending(s) == pending(dl).add(inj_tasks(s.last())));
        assert forall|x: TaskItem|
            pending(su).add(inj_tasks(s[k])).count(x) == pending(s).add(inj_tasks(p)).count(x) by {
            assert(pending(dlu).add(inj_tasks(dl[k])).count(x) == pending(dl).add(inj_tasks(p)).count(x));
            assert(pending(dlu).count(x) + inj_tasks(s[k]).count(x) == pending(dl).count(x)
                + inj_tasks(p).count(x));
        }
        assert(pending(su).add(inj_tasks(s[k])) =~= pending(s).add(inj_tasks(p)));
    }
}

/// Adding the same collection on both sides can be cancelled.
pub proof fn lemma_ms_cancel(a: Multiset<TaskItem>, b: Multiset<TaskItem>, c: Multiset<TaskItem>)
    requires
        a.add(c) == b.add(c),
    ensures
        a == b,
{
    assert(a =~= b) by {
        assert forall|x: TaskItem| a.count(x) == b.count(x) by {
            assert(a.add(c).count(x) == a.count(x) + c.count(x));
            assert(b.add(c).count(x) == b.count(x) + c.count(x));
            assert(a.add(c).count(x) == b.add(c).count(x));
        }
    }
}

/// A list of processors with empty injectors has nothing pending.
pub proof fn lemma_pending_all_empty(s: Seq<Processor>)
    requires
        forall|k: int| 0 <= k < s.len() ==> (#[trigger] s[k].inj()).len() == 0,
    ensures
        pending(s) == Multiset::<TaskItem>::empty(),
    decreases s.len(),
{
    if s.len() > 0 {
        assert(s.last() == s[s.len() - 1]);
        assert(forall|k: int| 0 <= k < s.drop_last().len() ==> (#[trigger] s.drop_last()[k].inj()).len() == 0);
        lemma_pending_all_empty(s.drop_last());
        assert(s.last().inj().to_multiset().len() == 0);
        assert(pending(s) =~= Multiset::<TaskItem>::empty());
    }
}

/// The process-wide scheduler registry.
pub struct System {
    processors: Vec<Processor>,
    tick: usize,
    push_counter: usize,
    machine_id_counter: usize,
    sysmon_wake: bool,
    started: bool,
}

impl System {
    /// The processor list.
    pub closed spec fn procs(&self) -> Seq<Processor> {
        self.processors@
    }

    pub open spec fn num_procs(&self) -> int {
        self.procs().len() as int
    }

    /// The monotonic clock the monitor advances.
    pub closed spec fn tick(&self) -> usize {
        self.tick
    }

    /// Round-robin selector for submissions without a usable hint.
    pub closed spec fn push_counter(&self) -> usize {
        self.push_counter
    }

    /// Next machine id to mint; ids are strictly monotonic.
    pub closed spec fn machine_id_counter(&self) -> usize {
        self.machine_id_counter
    }

    /// Whether the monitor has been asked to wake from its park.
    pub closed spec fn sysmon_wake(&self) -> bool {
        self.sysmon_wake
    }

    /// Whether any task was ever submitted; reconfiguration is refused after.
    pub closed spec fn started(&self) -> bool {
        self.started
    }

    pub open spec fn wf(&self) -> bool {
        &&& self.procs().len() >= 1
        &&& forall|k: int| 0 <= k < self.procs().len() ==> (#[trigger] self.procs()[k].index()) as int == k
        &&& forall|k: int|
            0 <= k < self.procs().len() ==> ((#[trigger] self.procs()[k].machine_id()) == NO_MACHINE
                || self.procs()[k].machine_id() < self.machine_id_counter())
        &&& self.machine_id_counter() < usize::MAX
        &&& self.tick() < usize::MAX
    }

    /// All tasks sitting in this system's injector queues.
    pub open spec fn queued(&self) -> Multiset<TaskItem> {
        pending(self.procs())
    }
}

/// Where a submission goes: the task's hint when it names a processor,
/// otherwise round-robin.
pub open spec fn push_target(s: System, t: Task) -> int {
    if (t.tag.hint() as int) < s.num_procs() {
        t.tag.hint() as int
    } else {
        (s.push_counter() as int) % s.num_procs()
    }
}

/// A processor that reported progress within the stall threshold (or is about
/// to, having a timestamp from the future of `now`). Parked processors are
/// not hot.
pub open spec fn is_hot(p: Processor, now: usize) -> bool {
    &&& p.last_seen() != PARKED
    &&& (p.last_seen() >= now || now - p.last_seen() <= STALL_THRESHOLD)
}

/// A processor the monitor must treat as stalled at tick `now`: not parked,
/// and unseen for more than the stall threshold.
pub open spec fn stale(p: Processor, now: usize) -> bool {
    &&& p.last_seen() != PARKED
    &&& p.last_seen() < now
    &&& now - p.last_seen() > STALL_THRESHOLD
}

/// Mutable access to one processor.
fn proc_at<'a>(procs: &'a mut Vec<Processor>, k: usize) -> (p: &'a mut Processor)
    requires
        k < old(procs).len(),
    ensures
        *p == old(procs)@[k as int],
        final(procs)@ == old(procs)@.update(k as int, *final(p)),
{
    &mut procs[k]
}

fn make_processors(n: usize) -> (procs: Vec<Processor>)
    requires
        1 <= n,
    ensures
        procs@.len() == n,
        forall|k: int| 0 <= k < n ==> (#[trigger] procs@[k].index()) as int == k,
        forall|k: int| 0 <= k < n ==> (#[trigger] procs@[k].machine_id()) == NO_MACHINE,
        forall|k: int| 0 <= k < n ==> (#[trigger] procs@[k].last_seen()) == PARKED,
        forall|k: int| 0 <= k < n ==> (#[trigger] procs@[k].inj()).len() == 0,
        forall|k: int| 0 <= k < n ==> !(#[trigger] procs@[k].signal()),
        pending(procs@) == Multiset::<TaskItem>::empty(),
{
    let mut procs: Vec<Processor> = Vec::new();
    let mut i: usize = 0;
    while i < n
        invariant
            i <= n,
            procs@.len() == i,
            forall|k: int| 0 <= k < i ==> (#[trigger] procs@[k].index()) as int == k,
            forall|k: int| 0 <= k < i ==> (#[trigger] procs@[k].machine_id()) == NO_MACHINE,
            forall|k: int| 0 <= k < i ==> (#[trigger] procs@[k].last_seen()) == PARKED,
            forall|k: int| 0 <= k < i ==> (#[trigger] procs@[k].inj()).len() == 0,
            forall|k: int| 0 <= k < i ==> !(#[trigger] procs@[k].signal()),
        decreases n - i,
    {
        procs.push(Processor::new(i));
        i = i + 1;
    }
    proof {
        lemma_pending_all_empty(procs@);
    }
    procs
}

impl System {
    /// A fresh system with `num_cpus` processors, all parked and empty.
    pub fn new(num_cpus: usize) -> (s: System)
        requires
            1 <= num_cpus,
        ensures
            s.wf(),
            s.num_procs() == num_cpus,
            s.tick() == 0,
            s.push_counter() == 0,
            s.machine_id_counter() == 0,
            !s.sysmon_wake(),
            !s.started(),
            forall|k: int| 0 <= k < num_cpus ==> (#[trigger] s.procs()[k].machine_id()) == NO_MACHINE,
            forall|k: int| 0 <= k < num_cpus ==> (#[trigger] s.procs()[k].last_seen()) == PARKED,
            forall|k: int| 0 <= k < num_cpus ==> (#[trigger] s.procs()[k].inj()).len() == 0,
            s.queued() == Multiset::<TaskItem>::empty(),
    {
        System {
            processors: make_processors(num_cpus),
            tick: 0,
            push_counter: 0,
            machine_id_counter: 0,
            sysmon_wake: false,
            started: false,
        }
    }

    /// Reconfigure the parallelism. Allowed only before the first submission;
    /// afterwards the processor count is fixed and an error is returned.
    pub fn set_num_cpus(&mut self, size: usize) -> (r: Result<(), String>)
        requires
            old(self).wf(),
            1 <= size,
        ensures
            final(self).wf(),
            old(self).started() ==> r is Err && *final(self) == *old(self),
            !old(self).started() ==> {
                &&& r is Ok
                &&& final(self).num_procs() == size
                &&& !final(self).started()
                &&& final(self).queued() == Multiset::<TaskItem>::empty()
            },
    {
        if self.started {
            Err("executor is already started".to_owned())
        } else {
            self.processors = make_processors(size);
            Ok(())
        }
    }

    /// The current tick.
    pub fn now(&self) -> (r: usize)
        ensures
            r == self.tick(),
    {
        self.tick
    }

    /// Ask the monitor to leave its park and re-evaluate.
    pub fn sysmon_wake_up(&mut self)
        ensures
            final(self).sysmon_wake(),
            final(self).procs() == old(self).procs(),
            final(self).tick() == old(self).tick(),
            final(self).push_counter() == old(self).push_counter(),
            final(self).machine_id_counter() == old(self).machine_id_counter(),
            final(self).started() == old(self).started(),
    {
        self.sysmon_wake = true;
    }

    /// A machine that must exit hands every task left in its worker deque
    /// back through the submit path, so nothing it held is lost with it.
    pub fn retire_worker(&mut self, worker: &mut crossbeam_deque::Worker<TaskItem>)
        requires
            old(self).wf(),
        ensures
            final(self).wf(),
            worker_tasks(*final(worker)).len() == 0,
            final(self).queued() == old(self).queued().add(worker_tasks(*old(worker))),
            final(self).num_procs() == old(self).num_procs(),
            final(self).tick() == old(self).tick(),
            final(self).machine_id_counter() == old(self).machine_id_counter(),
            forall|j: int|
                0 <= j < old(self).num_procs() ==> (#[trigger] final(self).procs()[j].machine_id())
                    == old(self).procs()[j].machine_id() && final(self).procs()[j].last_seen()
                    == old(self).procs()[j].last_seen(),
    {
        loop
            invariant
                self.wf(),
                self.num_procs() == old(self).num_procs(),
                self.tick() == old(self).tick(),
                self.machine_id_counter() == old(self).machine_id_counter(),
                forall|j: int|
                    0 <= j < old(self).num_procs() ==> (#[trigger] self.procs()[j].machine_id())
                        == old(self).procs()[j].machine_id() && self.procs()[j].last_seen()
                        == old(self).procs()[j].last_seen(),
                self.queued().add(worker_tasks(*worker)) == old(self).queued().add(
                    worker_tasks(*old(worker)),
                ),
            ensures
                worker_tasks(*worker).len() == 0,
                self.wf(),
                self.num_procs() == old(self).num_procs(),
                self.tick() == old(self).tick(),
                self.machine_id_counter() == old(self).machine_id_counter(),
                forall|j: int|
                    0 <= j < old(self).num_procs() ==> (#[trigger] self.procs()[j].machine_id())
                        == old(self).procs()[j].machine_id() && self.procs()[j].last_seen()
                        == old(self).procs()[j].last_seen(),
                self.queued().add(worker_tasks(*worker)) == old(self).queued().add(
                    worker_tasks(*old(worker)),
                ),
            decreases worker_tasks(*worker).len(),
        {
            let r = worker_pop(worker);
            match r {
                Some(item) => {
                    let ghost pre_q = self.queued();
                    let ghost pre_w = worker_tasks(*worker);
                    let _ = self.push(Task::from_item(item));
                    proof {
                        assert(self.queued() == pre_q.insert(item));
                        assert(pre_w.insert(item) =~= pre_w.add(
                            Multiset::<TaskItem>::empty().insert(item),
                        ));
                    }
                }
                None => {
                    break;
                }
            }
        }
    }

    /// The monitor's park decision: it may block on its own wake signal only
    /// while every processor is parked and no work is queued anywhere, so a
    /// submission or a running machine always has a monitor watching.
    pub fn sysmon_should_park(&self) -> (r: bool)
        ensures
            r == (forall|k: int|
                0 <= k < self.procs().len() ==> (#[trigger] self.procs()[k]).last_seen() == PARKED
                    && self.procs()[k].inj().len() == 0),
    {
        let n = self.processors.len();
        let mut k: usize = 0;
        while k < n
            invariant
                n == self.procs().len(),
                k <= n,
                forall|i: int|
                    0 <= i < k ==> (#[trigger] self.procs()[i]).last_seen() == PARKED
                        && self.procs()[i].inj().len() == 0,
            decreases n - k,
        {
            if self.processors[k].get_last_seen() != PARKED || self.processors[k].has_pending() {
                return false;
            }
            k = k + 1;
        }
        true
    }

    /// Consume the monitor's wake signal, reporting whether one was pending.
    pub fn take_sysmon_wake(&mut self) -> (had: bool)
        ensures
            had == old(self).sysmon_wake(),
            !final(self).sysmon_wake(),
            final(self).procs() == old(self).procs(),
            final(self).tick() == old(self).tick(),
            final(self).push_counter() == old(self).push_counter(),
            final(self).machine_id_counter() == old(self).machine_id_counter(),
            final(self).started() == old(self).started(),
    {
        let had = self.sysmon_wake;
        self.sysmon_wake = false;
        had
    }

    /// Read access to one processor, for observers.
    pub fn processor(&self, index: usize) -> (p: &Processor)
        requires
            index < self.num_procs(),
        ensures
            *p == self.procs()[index as int],
    {
        &self.processors[index]
    }

    /// How many processors the system runs.
    pub fn num_cpus(&self) -> (n: usize)
        ensures
            n == self.num_procs(),
    {
        self.processors.len()
    }
}

/// Pushing one item onto a processor's injector adds exactly that item to the
/// pending-task account.
pub proof fn lemma_pending_push(s: Seq<Processor>, k: int, p2: Processor, item: TaskItem)
    requires
        0 <= k < s.len(),
        p2.inj() == s[k].inj().push(item),
    ensures
        pending(s.update(k, p2)) == pending(s).insert(item),
{
    lemma_pending_update(s, k, p2);
    assert(inj_tasks(p2) =~= inj_tasks(s[k]).insert(item));
    assert forall|x: TaskItem| pending(s.update(k, p2)).count(x) == pending(s).insert(item).count(x) by {
        assert(pending(s.update(k, p2)).add(inj_tasks(s[k])).count(x) == pending(s.update(k, p2)).count(x)
            + inj_tasks(s[k]).count(x));
        assert(pending(s).add(inj_tasks(p2)).count(x) == pending(s).count(x) + inj_tasks(p2).count(x));
        assert(pending(s.update(k, p2)).count(x) + inj_tasks(s[k]).count(x) == pending(s).count(x)
            + inj_tasks(p2).count(x));
        assert(inj_tasks(p2).count(x) == inj_tasks(s[k]).count(x) + Multiset::singleton(item).count(x));
        assert(pending(s).insert(item).count(x) == pending(s).count(x) + Multiset::singleton(item).count(x));
    }
    assert(pending(s.update(k, p2)) =~= pending(s).insert(item));
}

/// Taking the front task and a batch out of one processor's injector removes
/// exactly the front task and that batch from the pending-task account.
pub proof fn lemma_pending_pop(s: Seq<Processor>, k: int, p2: Processor, n: int)
    requires
        0 <= k < s.len(),
        s[k].inj().len() > 0,
        1 <= n <= s[k].inj().len(),
        p2.inj() == s[k].inj().skip(n),
    ensures
        pending(s.update(k, p2)).add(s[k].inj().subrange(1, n).to_multiset()).insert(s[k].inj()[0])
            == pending(s),
{
    let q = s[k].inj();
    let upd = s.update(k, p2);
    lemma_pending_update(s, k, p2);
    assert(q =~= q.subrange(0, n) + q.skip(n));
    vstd::seq_lib::lemma_multiset_commutative(q.subrange(0, n), q.skip(n));
    assert(q.subrange(0, n) =~= seq![q[0]] + q.subrange(1, n));
    vstd::seq_lib::lemma_multiset_commutative(seq![q[0]], q.subrange(1, n));
    assert(seq![q[0]] =~= Seq::<TaskItem>::empty().push(q[0]));
    assert(seq![q[0]].to_multiset() =~= Multiset::<TaskItem>::empty().insert(q[0]));
    assert forall|x: TaskItem|
        pending(upd).add(q.subrange(1, n).to_multiset()).insert(q[0]).count(x) == pending(s).count(
            x,
        ) by {
        assert(q.to_multiset().count(x) == q.subrange(0, n).to_multiset().count(x)
            + q.skip(n).to_multiset().count(x));
        assert(q.subrange(0, n).to_multiset().count(x) == seq![q[0]].to_multiset().count(x)
            + q.subrange(1, n).to_multiset().count(x));
        assert(seq![q[0]].to_multiset().count(x) == Multiset::<TaskItem>::empty().insert(
            q[0],
        ).count(x));
        assert(pending(upd).add(inj_tasks(s[k])).count(x) == pending(upd).count(x)
            + inj_tasks(s[k]).count(x));
        assert(pending(s).add(inj_tasks(p2)).count(x) == pending(s).count(x) + inj_tasks(p2).count(x));
        assert(pending(upd).count(x) + inj_tasks(s[k]).count(x) == pending(s).count(x)
            + inj_tasks(p2).count(x));
    }
    assert(pending(upd).add(q.subrange(1, n).to_multiset()).insert(q[0]) =~= pending(s));
}

/// How a submission transforms the system: the task lands at the back of the
/// target's injector, the target is woken, round-robin advances only when the
/// hint named no processor, the monitor is woken when the wake signal was
/// already taken and no processor looks hot, and nothing else changes.
pub open spec fn push_transition(pre: System, t: Task, post: System, delivered: bool) -> bool {
    let k = push_target(pre, t);
    &&& post.procs().len() == pre.procs().len()
    &&& post.procs()[k].inj() == pre.procs()[k].inj().push(t.item())
    &&& post.procs()[k].signal()
    &&& delivered == !pre.procs()[k].signal()
    &&& post.procs()[k].index() == pre.procs()[k].index()
    &&& post.procs()[k].machine_id() == pre.procs()[k].machine_id()
    &&& post.procs()[k].last_seen() == pre.procs()[k].last_seen()
    &&& forall|j: int|
        0 <= j < pre.procs().len() && j != k ==> #[trigger] post.procs()[j] == pre.procs()[j]
    &&& post.push_counter() == if (t.tag.hint() as int) < pre.num_procs() {
        pre.push_counter()
    } else if pre.push_counter() == usize::MAX {
        0
    } else {
        (pre.push_counter() + 1) as usize
    }
    &&& post.tick() == pre.tick()
    &&& post.machine_id_counter() == pre.machine_id_counter()
    &&& post.started()
    &&& post.sysmon_wake() == (pre.sysmon_wake() || (!delivered && !(exists|j: int|
        0 <= j < pre.procs().len() && is_hot(#[trigger] pre.procs()[j], pre.tick()))))
}

impl System {
    /// Mint a machine for processor `index`. Ids are strictly monotonic, so a
    /// fresh machine is never confused with any machine ever bound before.
    pub fn new_machine(&mut self, index: usize) -> (m: Machine)
        requires
            old(self).wf(),
            index < old(self).num_procs(),
            old(self).machine_id_counter() + 1 < usize::MAX,
        ensures
            final(self).wf(),
            m.id == old(self).machine_id_counter(),
            m.index == index,
            final(self).machine_id_counter() == old(self).machine_id_counter() + 1,
            final(self).procs() == old(self).procs(),
            final(self).tick() == old(self).tick(),
            final(self).push_counter() == old(self).push_counter(),
            final(self).sysmon_wake() == old(self).sysmon_wake(),
            final(self).started() == old(self).started(),
            forall|k: int|
                0 <= k < old(self).num_procs() ==> (#[trigger] old(self).procs()[k].machine_id())
                    != m.id,
    {
        let id = self.machine_id_counter;
        self.machine_id_counter = id + 1;
        Machine { id, index }
    }

    /// A machine entering its processor's run loop: store its id (the single
    /// write that both binds and revokes) and report progress now.
    pub fn bind_machine(&mut self, machine: &Machine)
        requires
            old(self).wf(),
            machine.index < old(self).num_procs(),
            machine.id < old(self).machine_id_counter(),
        ensures
            final(self).wf(),
            final(self).procs()[machine.index as int].machine_id() == machine.id,
            final(self).procs()[machine.index as int].last_seen() == old(self).tick(),
            final(self).procs()[machine.index as int].inj() == old(self).procs()[machine.index as int].inj(),
            final(self).procs()[machine.index as int].signal() == old(self).procs()[machine.index as int].signal(),
            final(self).procs()[machine.index as int].index() == old(self).procs()[machine.index as int].index(),
            forall|j: int|
                0 <= j < old(self).num_procs() && j != machine.index ==> #[trigger] final(self).procs()[j] == old(self).procs()[j],
            final(self).num_procs() == old(self).num_procs(),
            final(self).queued() == old(self).queued(),
            final(self).tick() == old(self).tick(),
            final(self).push_counter() == old(self).push_counter(),
            final(self).machine_id_counter() == old(self).machine_id_counter(),
            final(self).sysmon_wake() == old(self).sysmon_wake(),
            final(self).started() == old(self).started(),
    {
        let now = self.tick;
        let ghost pre_procs = self.processors@;
        let p = proc_at(&mut self.processors, machine.index);
        p.bind(machine, now);
        proof {
            let k = machine.index as int;
            lemma_pending_update(pre_procs, k, self.processors@[k]);
            lemma_ms_cancel(
                pending(self.processors@),
                pending(pre_procs),
                inj_tasks(pre_procs[k]),
            );
        }
    }

    /// The user-facing blocking hint: hand the caller's processor to a fresh
    /// machine at once, so queued tasks keep running while the caller's
    /// thread stays with its blocking work. The old machine observes the
    /// mismatch and exits.
    pub fn respawn(&mut self, machine: &Machine) -> (m: Machine)
        requires
            old(self).wf(),
            machine.index < old(self).num_procs(),
            old(self).machine_id_counter() + 1 < usize::MAX,
            machine.id < old(self).machine_id_counter(),
        ensures
            final(self).wf(),
            m.index == machine.index,
            m.id != machine.id,
            final(self).procs()[machine.index as int].machine_id() == m.id,
            final(self).procs()[machine.index as int].machine_id() != machine.id,
            final(self).queued() == old(self).queued(),
            final(self).num_procs() == old(self).num_procs(),
    {
        let m = self.new_machine(machine.index);
        self.bind_machine(&m);
        m
    }

    /// Is any processor hot, i.e. recently seen and not parked?
    fn any_hot(&self) -> (r: bool)
        ensures
            r == exists|j: int|
                0 <= j < self.procs().len() && is_hot(#[trigger] self.procs()[j], self.tick()),
    {
        let now = self.tick;
        let n = self.processors.len();
        let mut j: usize = 0;
        while j < n
            invariant
                n == self.procs().len(),
                now == self.tick(),
                j <= n,
                forall|i: int| 0 <= i < j ==> !is_hot(#[trigger] self.procs()[i], now),
            decreases n - j,
        {
            let ls = self.processors[j].get_last_seen();
            if ls != PARKED && (ls >= now || now - ls <= STALL_THRESHOLD) {
                return true;
            }
            j = j + 1;
        }
        false
    }

    /// Submit a task. The hint routes it to the processor that last ran it
    /// when that processor still exists; otherwise a round-robin pick. The
    /// target's injector takes the task and its machine is woken; if the wake
    /// signal was already pending and nothing looks hot, the monitor is woken
    /// to re-evaluate. No submission is ever dropped.
    pub fn push(&mut self, task: Task) -> (delivered: bool)
        requires
            old(self).wf(),
        ensures
            final(self).wf(),
            push_transition(*old(self), task, *final(self), delivered),
            final(self).queued() == old(self).queued().insert(task.item()),
    {
        let hot = self.any_hot();
        proof {
            assert(hot == exists|j: int|
                0 <= j < old(self).procs().len() && is_hot(
                    #[trigger] old(self).procs()[j],
                    old(self).tick(),
                ));
        }
        self.started = true;
        let n = self.processors.len();
        let hint = task.tag.get_schedule_index_hint();
        let target: usize;
        if hint < n {
            target = hint;
        } else {
            let c = self.push_counter;
            self.push_counter = if c == usize::MAX { 0 } else { c + 1 };
            target = c % n;
        }
        let ghost pre_procs = self.processors@;
        let ghost item = task.item();
        let p = proc_at(&mut self.processors, target);
        let delivered = p.push_then_wake_up(task);
        proof {
            lemma_pending_push(pre_procs, target as int, self.processors@[target as int], item);
        }
        if !delivered && !hot {
            self.sysmon_wake = true;
        }
        delivered
    }

    /// Pull a batch from processor `index`'s injector into the worker deque
    /// and return the front task; nothing when that injector is empty. Tasks
    /// are conserved: whatever leaves the injector is now in the worker deque
    /// or in the returned task.
    pub fn pop(&mut self, index: usize, worker: &mut crossbeam_deque::Worker<TaskItem>) -> (r:
        Option<Task>)
        requires
            old(self).wf(),
            index < old(self).num_procs(),
        ensures
            final(self).wf(),
            (r is Some) == (old(self).procs()[index as int].inj().len() > 0),
            r is Some ==> r->Some_0.item() == old(self).procs()[index as int].inj()[0],
            pop_front_yield(*old(self), index as int, r),
            r is None ==> final(self).procs() == old(self).procs() && *final(worker) == *old(worker),
            forall|j: int|
                0 <= j < old(self).num_procs() && j != index ==> #[trigger] final(self).procs()[j]
                    == old(self).procs()[j],
            final(self).procs()[index as int].index() == old(self).procs()[index as int].index(),
            final(self).procs()[index as int].machine_id() == old(self).procs()[index as int].machine_id(),
            final(self).procs()[index as int].last_seen() == old(self).procs()[index as int].last_seen(),
            final(self).procs()[index as int].signal() == old(self).procs()[index as int].signal(),
            final(self).num_procs() == old(self).num_procs(),
            final(self).tick() == old(self).tick(),
            final(self).push_counter() == old(self).push_counter(),
            final(self).machine_id_counter() == old(self).machine_id_counter(),
            final(self).sysmon_wake() == old(self).sysmon_wake(),
            final(self).started() == old(self).started(),
            final(self).queued().add(worker_tasks(*final(worker))).add(opt_items(r)) == old(self).queued().add(worker_tasks(*old(worker))),
    {
        let ghost pre_procs = self.processors@;
        let ghost pre_worker = *worker;
        let p = proc_at(&mut self.processors, index);
        let r = p.pop(worker);
        proof {
            let k = index as int;
            let q = pre_procs[k].inj();
            if q.len() == 0 {
                assert(pre_procs.update(k, pre_procs[k]) =~= pre_procs);
                assert(self.processors@ =~= pre_procs);
            } else {
                let n = choose|n: int|
                    1 <= n <= q.len() && self.processors@[k].inj() == q.skip(n) && worker_tasks(
                        *worker,
                    ) == worker_tasks(pre_worker).add(q.subrange(1, n).to_multiset());
                lemma_pending_pop(pre_procs, k, self.processors@[k], n);
                let batch = q.subrange(1, n).to_multiset();
                assert forall|x: TaskItem|
                    pending(self.processors@).add(worker_tasks(*worker)).add(opt_items(r)).count(x)
                        == pending(pre_procs).add(worker_tasks(pre_worker)).count(x) by {
                    assert(pending(self.processors@).add(batch).insert(q[0]).count(x) == pending(pre_procs).count(x));
                    assert(opt_items(r).count(x) == Multiset::<TaskItem>::empty().insert(
                        q[0],
                    ).count(x));
                }
                assert(pending(self.processors@).add(worker_tasks(*worker)).add(opt_items(r))
                    =~= pending(pre_procs).add(worker_tasks(pre_worker)));
            }
        }
        r
    }
}

/// Replacing one processor by one with the same injector contents leaves the
/// pending-task account unchanged.
pub proof fn lemma_pending_same_inj(s: Seq<Processor>, k: int, p2: Processor)
    requires
        0 <= k < s.len(),
        p2.inj() == s[k].inj(),
    ensures
        pending(s.update(k, p2)) == pending(s),
{
    lemma_pending_update(s, k, p2);
    lemma_ms_cancel(pending(s.update(k, p2)), pending(s), inj_tasks(s[k]));
}

/// The position `offset` places to the right of `caller`, wrapping around a
/// ring of `n` processors.
pub open spec fn rotated(caller: int, offset: int, n: int) -> int {
    if caller + offset < n {
        caller + offset
    } else {
        caller + offset - n
    }
}

/// What one pop-from-injector reports: a task exactly when the injector holds
/// one, and then the front task.
pub open spec fn pop_front_yield(s: System, k: int, r: Option<Task>) -> bool {
    &&& (r is Some) == (s.procs()[k].inj().len() > 0)
    &&& r is Some ==> r->Some_0.item() == s.procs()[k].inj()[0]
}

/// The monitor's guarantee, from one tick to the next: every processor that
/// was stalled past the threshold is rebound to a machine newer than every
/// machine minted before, with its queue and timestamp untouched; every other
/// processor is untouched entirely.
pub open spec fn revokes_stalled(pre: System, post: System) -> bool {
    &&& post.tick() == pre.tick() + 1
    &&& post.procs().len() == pre.procs().len()
    &&& forall|k: int|
        0 <= k < pre.procs().len() && stale(#[trigger] pre.procs()[k], post.tick()) ==> {
            &&& post.procs()[k].machine_id() >= pre.machine_id_counter()
            &&& post.procs()[k].machine_id() < post.machine_id_counter()
            &&& post.procs()[k].machine_id() != pre.procs()[k].machine_id()
            &&& post.procs()[k].last_seen() == pre.procs()[k].last_seen()
            &&& post.procs()[k].inj() == pre.procs()[k].inj()
            &&& post.procs()[k].signal() == pre.procs()[k].signal()
            &&& post.procs()[k].index() == pre.procs()[k].index()
        }
    &&& forall|k: int|
        0 <= k < pre.procs().len() && !stale(#[trigger] pre.procs()[k], post.tick())
            ==> post.procs()[k] == pre.procs()[k]
}

impl System {
    /// Steal work for `caller`: walk the other processors in rotated order
    /// and take the first injector batch found. Peers are only relieved of
    /// tasks, never handed any; a miss means every other injector was empty.
    pub fn steal(&mut self, caller: usize, worker: &mut crossbeam_deque::Worker<TaskItem>) -> (r:
        Option<Task>)
        requires
            old(self).wf(),
            caller < old(self).num_procs(),
        ensures
            final(self).wf(),
            r is None ==> final(self).procs() == old(self).procs() && *final(worker) == *old(worker)
                && forall|j: int|
                0 <= j < old(self).num_procs() && j != caller ==> (#[trigger] old(self).procs()[j].inj()).len() == 0,
            r is Some ==> exists|j: int|
                0 <= j < old(self).num_procs() && j != caller && r->Some_0.item() == (#[trigger] old(self).procs()[j].inj())[0],
            forall|j: int|
                0 <= j < old(self).num_procs() ==> {
                    &&& (#[trigger] final(self).procs()[j].machine_id()) == old(self).procs()[j].machine_id()
                    &&& final(self).procs()[j].index() == old(self).procs()[j].index()
                    &&& final(self).procs()[j].last_seen() == old(self).procs()[j].last_seen()
                    &&& final(self).procs()[j].signal() == old(self).procs()[j].signal()
                },
            final(self).procs()[caller as int] == old(self).procs()[caller as int],
            final(self).num_procs() == old(self).num_procs(),
            final(self).tick() == old(self).tick(),
            final(self).push_counter() == old(self).push_counter(),
            final(self).machine_id_counter() == old(self).machine_id_counter(),
            final(self).sysmon_wake() == old(self).sysmon_wake(),
            final(self).started() == old(self).started(),
            final(self).queued().add(worker_tasks(*final(worker))).add(opt_items(r)) == old(self).queued().add(worker_tasks(*old(worker))),
    {
        let n = self.processors.len();
        let mut offset: usize = 1;
        while offset < n
            invariant
                old(self).wf(),
                caller < n,
                n == old(self).num_procs(),
                1 <= offset <= n,
                self.wf(),
                self.procs() == old(self).procs(),
                self.tick() == old(self).tick(),
                self.push_counter() == old(self).push_counter(),
                self.machine_id_counter() == old(self).machine_id_counter(),
                self.sysmon_wake() == old(self).sysmon_wake(),
                self.started() == old(self).started(),
                *worker == *old(worker),
                forall|o: int|
                    1 <= o < offset ==> (#[trigger] old(self).procs()[rotated(
                        caller as int,
                        o,
                        n as int,
                    )].inj()).len() == 0,
            decreases n - offset,
        {
            let k = if offset < n - caller {
                caller + offset
            } else {
                offset - (n - caller)
            };
            assert(k as int == rotated(caller as int, offset as int, n as int));
            let r = self.pop(k, worker);
            if r.is_some() {
                return r;
            }
            offset = offset + 1;
        }
        proof {
            assert forall|j: int| 0 <= j < n && j != caller implies (#[trigger] old(self).procs()[j].inj()).len() == 0 by {
                let o = if j > caller { j - caller as int } else { j + n - caller as int };
                assert(1 <= o < n);
                assert(rotated(caller as int, o, n as int) == j);
            }
        }
        None
    }

    /// One monitor pass: advance the tick, then rebind every processor whose
    /// bound machine has gone unseen past the stall threshold to a freshly
    /// minted machine. Parked and recently seen processors are untouched. The
    /// replacement machines come back so a driver can start them.
    pub fn sysmon_tick(&mut self) -> (replacements: Vec<Machine>)
        requires
            old(self).wf(),
            old(self).tick() + 1 < usize::MAX,
            old(self).machine_id_counter() + old(self).num_procs() < usize::MAX,
        ensures
            final(self).wf(),
            revokes_stalled(*old(self), *final(self)),
            forall|i: int|
                0 <= i < replacements@.len() ==> ((#[trigger] replacements@[i].index) as int)
                    < old(self).num_procs() && final(self).procs()[replacements@[i].index as int].machine_id()
                    == replacements@[i].id,
            final(self).queued() == old(self).queued(),
            final(self).num_procs() == old(self).num_procs(),
            final(self).push_counter() == old(self).push_counter(),
            final(self).sysmon_wake() == old(self).sysmon_wake(),
            final(self).started() == old(self).started(),
            final(self).machine_id_counter() >= old(self).machine_id_counter(),
    {
        let mut replacements: Vec<Machine> = Vec::new();
        self.tick = self.tick + 1;
        let now = self.tick;
        let n = self.processors.len();
        let mut k: usize = 0;
        while k < n
            invariant
                forall|i: int|
                    0 <= i < replacements@.len() ==> ((#[trigger] replacements@[i].index) as int) < k
                        && self.procs()[replacements@[i].index as int].machine_id()
                        == replacements@[i].id,
                old(self).wf(),
                old(self).tick() + 1 < usize::MAX,
                old(self).machine_id_counter() + old(self).num_procs() < usize::MAX,
                n == old(self).num_procs(),
                k <= n,
                self.procs().len() == n,
                now == old(self).tick() + 1,
                self.tick() == now,
                self.push_counter() == old(self).push_counter(),
                self.sysmon_wake() == old(self).sysmon_wake(),
                self.started() == old(self).started(),
                old(self).machine_id_counter() <= self.machine_id_counter(),
                self.machine_id_counter() <= old(self).machine_id_counter() + k,
                pending(self.procs()) == pending(old(self).procs()),
                forall|j: int| k <= j < n ==> #[trigger] self.procs()[j] == old(self).procs()[j],
                forall|j: int|
                    0 <= j < k && stale(#[trigger] old(self).procs()[j], now) ==> {
                        &&& self.procs()[j].machine_id() >= old(self).machine_id_counter()
                        &&& self.procs()[j].machine_id() < self.machine_id_counter()
                        &&& self.procs()[j].machine_id() != old(self).procs()[j].machine_id()
                        &&& self.procs()[j].last_seen() == old(self).procs()[j].last_seen()
                        &&& self.procs()[j].inj() == old(self).procs()[j].inj()
                        &&& self.procs()[j].signal() == old(self).procs()[j].signal()
                        &&& self.procs()[j].index() == old(self).procs()[j].index()
                    },
                forall|j: int|
                    0 <= j < k && !stale(#[trigger] old(self).procs()[j], now) ==> self.procs()[j]
                        == old(self).procs()[j],
                forall|j: int|
                    0 <= j < n ==> ((#[trigger] self.procs()[j].machine_id()) == NO_MACHINE
                        || self.procs()[j].machine_id() < self.machine_id_counter()),
            decreases n - k,
        {
            let ls = self.processors[k].get_last_seen();
            let is_stale = ls != PARKED && ls < now && now - ls > STALL_THRESHOLD;
            if is_stale {
                let id = self.machine_id_counter;
                self.machine_id_counter = id + 1;
                let ghost pre_procs = self.processors@;
                let p = proc_at(&mut self.processors, k);
                p.revoke_to(id);
                proof {
                    lemma_pending_same_inj(pre_procs, k as int, self.processors@[k as int]);
                }
                replacements.push(Machine { id, index: k });
            }
            k = k + 1;
        }
        proof {
            assert forall|j: int| 0 <= j < n implies (#[trigger] self.procs()[j].index()) as int
                == j by {
                if stale(old(self).procs()[j], now) {
                    assert(self.procs()[j].index() == old(self).procs()[j].index());
                } else {
                    assert(self.procs()[j] == old(self).procs()[j]);
                }
            }
        }
        replacements
    }
}

/// What a machine must do next, as decided by one pass over the queues.
pub enum Step {
    /// A task to poll.
    Run(Task),
    /// Nothing found; spin briefly and look again.
    Snooze,
    /// Nothing found and the spin budget is spent; advertise idle and block
    /// on the wake channel.
    Park,
}

/// The task items a step hands to the machine.
pub open spec fn step_items(s: Step) -> Multiset<TaskItem> {
    match s {
        Step::Run(t) => Multiset::empty().insert(t.item()),
        _ => Multiset::empty(),
    }
}

impl System {
    /// One pass of the run loop's search for work, on behalf of `machine`:
    /// report a heartbeat, then look in this order: the injector if the local
    /// run budget is spent, the local deque, the injector, the other
    /// processors. Found work comes back as `Run`; otherwise the two-stage
    /// sleep says whether to snooze or to park.
    pub fn find_task(
        &mut self,
        machine: &Machine,
        worker: &mut crossbeam_deque::Worker<TaskItem>,
        run_counter: &mut usize,
        backoff: &mut SleepBackoff,
    ) -> (step: Step)
        requires
            old(self).wf(),
            machine.index < old(self).num_procs(),
        ensures
            final(self).wf(),
            final(self).num_procs() == old(self).num_procs(),
            forall|j: int|
                0 <= j < old(self).num_procs() ==> (#[trigger] final(self).procs()[j].machine_id())
                    == old(self).procs()[j].machine_id() && final(self).procs()[j].index() == old(self).procs()[j].index(),
            final(self).queued().add(worker_tasks(*final(worker))).add(step_items(step)) == old(self).queued().add(worker_tasks(*old(worker))),
            *old(run_counter) >= MAX_RUNS && old(self).procs()[machine.index as int].inj().len() > 0
                ==> (step matches Step::Run(t) && t.item() == old(self).procs()[machine.index as int].inj()[0])
                && *final(run_counter) == 0,
            *old(run_counter) < MAX_RUNS && worker_tasks(*old(worker)).len() > 0 ==> (step matches
                Step::Run(t) && worker_tasks(*old(worker)).contains(t.item())) && *final(run_counter) == *old(run_counter),
            (step is Snooze || step is Park) ==> worker_tasks(*old(worker)).len() == 0
                && worker_tasks(*final(worker)).len() == 0 && forall|j: int|
                0 <= j < old(self).num_procs() ==> (#[trigger] old(self).procs()[j].inj()).len()
                    == 0,
            step is Park ==> old(backoff).completed() && final(self).procs()[machine.index as int].last_seen()
                == PARKED && *final(backoff) == *old(backoff),
            step is Snooze ==> !old(backoff).completed() && final(backoff).steps() == old(backoff).steps() + 1
                && final(self).procs()[machine.index as int].last_seen() == old(self).tick(),
            step is Run ==> final(self).procs()[machine.index as int].last_seen() == old(self).tick() && *final(backoff) == *old(backoff),
            final(self).tick() == old(self).tick(),
            final(self).push_counter() == old(self).push_counter(),
            final(self).machine_id_counter() == old(self).machine_id_counter(),
            final(self).sysmon_wake() == old(self).sysmon_wake(),
            final(self).started() == old(self).started(),
    {
        let k = machine.index;
        let now = self.tick;

        // heartbeat: mark this processor still healthy
        {
            let ghost pre_procs = self.processors@;
            let p = proc_at(&mut self.processors, k);
            p.mark_seen(now);
            proof {
                lemma_pending_same_inj(pre_procs, k as int, self.processors@[k as int]);
            }
        }

        // the local run budget is spent: the injector queue must be looked at
        // first, so queued submissions cannot starve behind the local deque
        if *run_counter >= MAX_RUNS {
            *run_counter = 0;
            {
                let ghost pre_procs = self.processors@;
                let p = proc_at(&mut self.processors, k);
                let _ = p.take_signal();
                proof {
                    lemma_pending_same_inj(pre_procs, k as int, self.processors@[k as int]);
                }
            }
            let r = self.pop(k, worker);
            if let Some(t) = r {
                return Step::Run(t);
            }
        }

        // local deque
        let r = worker_pop(worker);
        if let Some(item) = r {
            let t = Task::from_item(item);
            proof {
                assert(worker_tasks(*worker).insert(item) =~= worker_tasks(*old(worker)));
            }
            return Step::Run(t);
        }

        // the injector queue, after flushing the wake signal
        *run_counter = 0;
        {
            let ghost pre_procs = self.processors@;
            let p = proc_at(&mut self.processors, k);
            let _ = p.take_signal();
            proof {
                lemma_pending_same_inj(pre_procs, k as int, self.processors@[k as int]);
            }
        }
        let r = self.pop(k, worker);
        if let Some(t) = r {
            return Step::Run(t);
        }

        // steal from the other processors
        let r = self.steal(k, worker);
        if let Some(t) = r {
            return Step::Run(t);
        }
        proof {
            assert forall|j: int| 0 <= j < old(self).num_procs() implies (#[trigger] old(self).procs()[j].inj()).len() == 0 by {
                assert(self.procs()[j].inj() == old(self).procs()[j].inj());
                assert(self.procs()[j].inj().len() == 0);
            }
        }

        // no work anywhere: two-stage sleep
        if backoff.is_completed() {
            let ghost pre_procs = self.processors@;
            let p = proc_at(&mut self.processors, k);
            p.park();
            proof {
                lemma_pending_same_inj(pre_procs, k as int, self.processors@[k as int]);
            }
            Step::Park
        } else {
            backoff.snooze();
            Step::Snooze
        }
    }

    /// The ownership test in front of every poll: when `machine` still owns its
    /// processor the task comes back with its hint set to that processor,
    /// ready to poll. When the processor was taken away the task goes back
    /// through the submit path untouched and nothing is returned: the machine
    /// must exit.
    pub fn begin_run(&mut self, machine: &Machine, task: Task) -> (r: Option<Task>)
        requires
            old(self).wf(),
            machine.index < old(self).num_procs(),
        ensures
            final(self).wf(),
            (r is Some) == (old(self).procs()[machine.index as int].machine_id() == machine.id),
            r is Some ==> {
                &&& r->Some_0.id == task.id
                &&& r->Some_0.tag.hint() == machine.index
                &&& *final(self) == *old(self)
            },
            r is None ==> {
                &&& push_transition(*old(self), task, *final(self), false) || push_transition(
                    *old(self),
                    task,
                    *final(self),
                    true,
                )
                &&& final(self).queued() == old(self).queued().insert(task.item())
            },
    {
        let k = machine.index;
        let on = self.processors[k].still_on_machine(machine);
        if on {
            let mut t = task;
            t.tag.set_schedule_index_hint(k);
            Some(t)
        } else {
            let _ = self.push(task);
            None
        }
    }

    /// The check after every poll: when `machine` still owns its processor
    /// the run counter advances and the loop goes on; a mismatch means the
    /// poll blocked long enough for the monitor to hand the processor away,
    /// and the machine must exit.
    pub fn after_run(&self, machine: &Machine, run_counter: &mut usize) -> (keep: bool)
        requires
            machine.index < self.num_procs(),
            *old(run_counter) < usize::MAX,
        ensures
            keep == (self.procs()[machine.index as int].machine_id() == machine.id),
            keep ==> *final(run_counter) == *old(run_counter) + 1,
            !keep ==> *final(run_counter) == *old(run_counter),
    {
        let keep = self.processors[machine.index].still_on_machine(machine);
        if keep {
            *run_counter = *run_counter + 1;
        }
        keep
    }

    /// What a machine does right after its blocking receive on the wake
    /// channel returns: consume the signal, report progress, rouse the
    /// monitor so it re-evaluates, and restart the spin budget.
    pub fn finish_sleep(&mut self, machine: &Machine, backoff: &mut SleepBackoff)
        requires
            old(self).wf(),
            machine.index < old(self).num_procs(),
        ensures
            final(self).wf(),
            final(self).procs()[machine.index as int].last_seen() == old(self).tick(),
            !final(self).procs()[machine.index as int].signal(),
            final(self).procs()[machine.index as int].machine_id() == old(self).procs()[machine.index as int].machine_id(),
            final(self).procs()[machine.index as int].inj() == old(self).procs()[machine.index as int].inj(),
            forall|j: int|
                0 <= j < old(self).num_procs() && j != machine.index ==> #[trigger] final(self).procs()[j] == old(self).procs()[j],
            final(self).sysmon_wake(),
            final(backoff).steps() == 0,
            final(self).queued() == old(self).queued(),
            final(self).num_procs() == old(self).num_procs(),
            final(self).tick() == old(self).tick(),
            final(self).push_counter() == old(self).push_counter(),
            final(self).machine_id_counter() == old(self).machine_id_counter(),
            final(self).started() == old(self).started(),
    {
        let now = self.tick;
        let ghost pre_procs = self.processors@;
        let p = proc_at(&mut self.processors, machine.index);
        let _ = p.take_signal();
        p.mark_seen(now);
        proof {
            lemma_pending_same_inj(pre_procs, machine.index as int, self.processors@[machine.index as int]);
        }
        self.sysmon_wake = true;
        backoff.reset();
    }
}

/// At most one machine can pass the ownership gate of one processor at any
/// moment: the binding ballot holds a single id, so two machines that both
/// believe they own `p` are the same machine.
pub proof fn lemma_at_most_one_machine(p: Processor, m1: Machine, m2: Machine)
    requires
        p.machine_id() == m1.id,
        p.machine_id() == m2.id,
    ensures
        m1.id == m2.id,
{
}

/// No silent drop: a task pushed at a processor whose injector was empty is
/// exactly the task the next injector inspection on that processor hands out.
pub proof fn lemma_pushed_task_is_popped(
    pre: System,
    t: Task,
    mid: System,
    delivered: bool,
    r: Option<Task>,
)
    requires
        pre.wf(),
        push_transition(pre, t, mid, delivered),
        pre.procs()[push_target(pre, t)].inj().len() == 0,
        pop_front_yield(mid, push_target(pre, t), r),
    ensures
        r is Some,
        r->Some_0.item() == t.item(),
{
    let k = push_target(pre, t);
    assert(mid.procs()[k].inj() == pre.procs()[k].inj().push(t.item()));
    assert(mid.procs()[k].inj()[0] == t.item());
}

proof fn lemma_run_budget_ind(counters: Seq<usize>, i: int)
    requires
        counters.len() >= 1,
        counters[0] == 0,
        forall|j: int| 0 < j < counters.len() ==> #[trigger] counters[j] == counters[j - 1] + 1,
        0 <= i < counters.len(),
    ensures
        counters[i] == i,
    decreases i,
{
    if i > 0 {
        lemma_run_budget_ind(counters, i - 1);
    }
}

/// Fairness: a poll only advances the run counter by one, so a machine that
/// keeps finding local work reaches the forced injector inspection after
/// exactly `MAX_RUNS` polls; a task waiting in the injector is then handed
/// out, so it waits for at most `MAX_RUNS + 1` local polls.
pub proof fn lemma_run_budget(counters: Seq<usize>)
    requires
        counters.len() >= 1,
        counters[0] == 0,
        forall|j: int| 0 < j < counters.len() ==> #[trigger] counters[j] == counters[j - 1] + 1,
    ensures
        forall|i: int| 0 <= i < counters.len() ==> counters[i] == i,
        counters.len() > MAX_RUNS ==> counters[MAX_RUNS as int] >= MAX_RUNS,
{
    assert forall|i: int| 0 <= i < counters.len() implies counters[i] == i by {
        lemma_run_budget_ind(counters, i);
    }
}

} // verus!
