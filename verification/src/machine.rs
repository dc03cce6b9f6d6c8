//! A machine is an OS-thread-backed driver bound to one processor at a time.
//! It has no queue of its own; it exists to run one processor's loop and to
//! exit as soon as it observes that the processor was handed to a newer
//! machine.

use vstd::prelude::*;

verus! {

/// Identity of a worker-thread driver: a unique monotonic id and the index of
/// the processor it was created to run. Machine ids are minted by the system,
/// which keeps them strictly increasing; `usize::MAX` never names a machine
/// (it is the "no machine" mark on a processor).
#[derive(Clone, Copy)]
pub struct Machine {
    pub id: usize,
    pub index: usize,
}

} // verus!
