//! An M:N task scheduler: tasks are multiplexed over a fixed set of
//! processors, each driven by a machine (a worker-thread identity) that can
//! be replaced when it stalls. This crate verifies the scheduling logic
//! itself: the queue discipline of the run loop, the machine hand-off
//! protocol, stall detection by the monitor, the wake/park protocol, and the
//! thread pool's reclaim policy. Polling a task's future and the OS threads
//! that drive the loop live outside, and talk to the scheduler through the
//! step functions of [`system::System`].

pub mod lock;
pub mod machine;
pub mod pool;
pub mod processor;
pub mod queues;
pub mod system;
pub mod tag;
pub mod yields;

use vstd::prelude::*;

use crate::machine::Machine;
use crate::pool::Pool;
use crate::system::System;

verus! {

/// Configure the parallelism. May only be called before the first task is
/// submitted; afterwards the processor count is fixed and an error comes
/// back.
pub fn set_num_cpus(sys: &mut System, size: usize) -> (r: Result<(), String>)
    requires
        old(sys).wf(),
        1 <= size,
    ensures
        final(sys).wf(),
        old(sys).started() ==> r is Err && *final(sys) == *old(sys),
        !old(sys).started() ==> r is Ok && final(sys).num_procs() == size,
{
    sys.set_num_cpus(size)
}

/// Blocking hint from inside a task: the caller's processor is handed to a
/// fresh machine at once, so other ready tasks keep running while the
/// caller's thread stays with its blocking work.
pub fn mark_blocking(sys: &mut System, machine: &Machine) -> (m: Machine)
    requires
        old(sys).wf(),
        machine.index < old(sys).num_procs(),
        old(sys).machine_id_counter() + 1 < usize::MAX,
        machine.id < old(sys).machine_id_counter(),
    ensures
        final(sys).wf(),
        m.index == machine.index,
        m.id != machine.id,
        final(sys).procs()[machine.index as int].machine_id() == m.id,
        final(sys).queued() == old(sys).queued(),
        final(sys).num_procs() == old(sys).num_procs(),
{
    sys.respawn(machine)
}

/// Hand a job to the thread pool. Never blocks and never fails.
pub fn spawn_box(pool: &mut Pool)
    requires
        old(pool).wf(),
        old(pool).live() < usize::MAX,
        old(pool).jobs() < usize::MAX,
    ensures
        final(pool).wf(),
        final(pool).jobs() == old(pool).jobs() + 1,
        old(pool).idle() > 0 ==> final(pool).idle() == old(pool).idle() - 1 && final(pool).live()
            == old(pool).live(),
        old(pool).idle() == 0 ==> final(pool).idle() == 0 && final(pool).live() == old(pool).live()
            + 1,
        final(pool).next_exit_at() == old(pool).next_exit_at(),
{
    pool.put_job()
}

} // verus!
