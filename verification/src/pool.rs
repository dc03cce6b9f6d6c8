//! The cached thread pool behind machine spawning: an unbounded set of OS
//! threads fed through a zero-capacity rendezvous channel. A job is taken by
//! an already-idle thread when one is waiting, otherwise a fresh thread is
//! started, so submission never blocks and never fails. Idle threads drain
//! away at a limited rate: at most one may exit per idle window.

use vstd::prelude::*;

verus! {

/// Seconds an idle thread waits before it may try to exit, and the minimum
/// spacing between two exits.
pub const IDLE_WINDOW: usize = 300;

/// The observable state of the thread pool: how many threads exist, how many
/// of them are parked at the rendezvous channel, and the earliest time the
/// next idle exit is allowed.
pub struct Pool {
    next_exit: usize,
    idle_threads: usize,
    live_threads: usize,
    jobs_accepted: usize,
}

impl Pool {
    /// The earliest time at which an idle thread may exit.
    pub closed spec fn next_exit_at(&self) -> usize {
        self.next_exit
    }

    /// Threads parked waiting for a job.
    pub closed spec fn idle(&self) -> usize {
        self.idle_threads
    }

    /// Threads alive, idle or running a job.
    pub closed spec fn live(&self) -> usize {
        self.live_threads
    }

    /// Jobs taken in so far; none is ever refused or dropped.
    pub closed spec fn jobs(&self) -> usize {
        self.jobs_accepted
    }

    pub open spec fn wf(&self) -> bool {
        self.idle() <= self.live()
    }

    pub fn new() -> (p: Pool)
        ensures
            p.wf(),
            p.next_exit_at() == 0,
            p.idle() == 0,
            p.live() == 0,
            p.jobs() == 0,
    {
        Pool { next_exit: 0, idle_threads: 0, live_threads: 0, jobs_accepted: 0 }
    }

    /// Take in a job. Never blocks and never fails: an idle thread takes it
    /// if one is waiting at the rendezvous channel, otherwise a new thread is
    /// started to receive it.
    pub fn put_job(&mut self)
        requires
            old(self).wf(),
            old(self).live() < usize::MAX,
            old(self).jobs() < usize::MAX,
        ensures
            final(self).wf(),
            final(self).jobs() == old(self).jobs() + 1,
            old(self).idle() > 0 ==> final(self).idle() == old(self).idle() - 1
                && final(self).live() == old(self).live(),
            old(self).idle() == 0 ==> final(self).idle() == 0
                && final(self).live() == old(self).live() + 1,
            final(self).next_exit_at() == old(self).next_exit_at(),
    {
        if self.idle_threads > 0 {
            self.idle_threads = self.idle_threads - 1;
        } else {
            self.live_threads = self.live_threads + 1;
        }
        self.jobs_accepted = self.jobs_accepted + 1;
    }

    /// A thread finished its job and parks at the rendezvous channel again.
    pub fn job_finished(&mut self)
        requires
            old(self).wf(),
            old(self).idle() < old(self).live(),
        ensures
            final(self).wf(),
            final(self).idle() == old(self).idle() + 1,
            final(self).live() == old(self).live(),
            final(self).jobs() == old(self).jobs(),
            final(self).next_exit_at() == old(self).next_exit_at(),
    {
        self.idle_threads = self.idle_threads + 1;
    }

    /// An idle thread's receive timed out at time `now` and it asks to exit.
    /// At most one thread may exit per idle window: the request is granted
    /// exactly when the window since the previous granted exit has passed.
    pub fn on_idle_timeout(&mut self, now: usize) -> (exited: bool)
        requires
            old(self).wf(),
            old(self).idle() > 0,
            now + IDLE_WINDOW <= usize::MAX,
        ensures
            final(self).wf(),
            timeout_transition(*old(self), now, exited, *final(self)),
            final(self).next_exit_at() >= old(self).next_exit_at(),
    {
        if now >= self.next_exit {
            self.next_exit = now + IDLE_WINDOW;
            self.idle_threads = self.idle_threads - 1;
            self.live_threads = self.live_threads - 1;
            true
        } else {
            false
        }
    }
}

/// How an idle-timeout at time `now` relates the pool state before and after.
pub open spec fn timeout_transition(pre: Pool, now: usize, exited: bool, post: Pool) -> bool {
    &&& exited == (now >= pre.next_exit_at())
    &&& exited ==> {
        &&& post.next_exit_at() == now + IDLE_WINDOW
        &&& post.idle() == pre.idle() - 1
        &&& post.live() == pre.live() - 1
    }
    &&& !exited ==> post == pre
    &&& post.jobs() == pre.jobs()
}

/// Drain rate: two granted exits are at least one idle window apart. Between
/// the two timeout events the pool may serve any number of jobs; no operation
/// moves the next allowed exit earlier.
pub proof fn lemma_pool_drain_rate(
    p0: Pool,
    t1: usize,
    p1: Pool,
    p2: Pool,
    t2: usize,
    p3: Pool,
)
    requires
        timeout_transition(p0, t1, true, p1),
        p2.next_exit_at() >= p1.next_exit_at(),
        timeout_transition(p2, t2, true, p3),
    ensures
        t2 >= t1 + IDLE_WINDOW,
{
}

} // verus!
