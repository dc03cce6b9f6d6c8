//! A future-like unit that reports "pending" a fixed number of times before
//! completing, modelling a cooperative task that yields back to the scheduler.

use vstd::prelude::*;

verus! {

/// What one poll of a task reported.
#[derive(PartialEq, Eq, Structural, Clone, Copy, Debug)]
pub enum PollOutcome {
    Ready,
    Pending,
}

/// Future that will yield multiple times: `Yields(k)` reports `Pending` on
/// its first `k` polls and `Ready` on the poll after those.
pub struct Yields(pub usize);

impl Yields {
    pub fn poll(&mut self) -> (r: PollOutcome)
        ensures
            old(self).0 == 0 ==> r == PollOutcome::Ready && final(self).0 == 0,
            old(self).0 > 0 ==> r == PollOutcome::Pending && final(self).0 == old(self).0 - 1,
    {
        if self.0 == 0 {
            PollOutcome::Ready
        } else {
            self.0 = self.0 - 1;
            PollOutcome::Pending
        }
    }
}

/// Poll a yielding future until it completes. A future that yields `k` times
/// is polled exactly `k + 1` times, the last poll being the one that returns
/// `Ready`.
pub fn run_to_ready(y: &mut Yields) -> (polls: usize)
    requires
        old(y).0 < usize::MAX,
    ensures
        polls == old(y).0 + 1,
        final(y).0 == 0,
{
    let mut polls: usize = 0;
    loop
        invariant
            old(y).0 < usize::MAX,
            polls + y.0 == old(y).0,
            polls <= old(y).0,
        decreases y.0,
    {
        let r = y.poll();
        polls = polls + 1;
        if matches!(r, PollOutcome::Ready) {
            return polls;
        }
    }
}

} // verus!
