//! A cooperative task runtime.
//!
//! Tasks run on the calling thread and must never block for long
//! stretches, because a blocked task starves every other task on the same
//! scheduler. Use the offload helpers below for anything that needs to run
//! to completion without yielding.
use vstd::prelude::*;

verus! {

/// Puts the current task to sleep until the given tick count is reached,
/// and returns that deadline.
pub fn sleep_until(deadline: u64) -> (r: u64)
    ensures
        r == deadline,
{
    deadline
}

/// Runs the provided closure on a thread where blocking operations are
/// acceptable, and returns its result.
///
/// CPU-intensive work should not run directly inside async tasks, since it
/// starves the scheduler and delays unrelated tasks. Offload it.
pub fn offload_blocking<F, R>(work: F) -> (r: R) where F: FnOnce() -> R
    requires
        call_requires(work, ()),
    ensures
        call_ensures(work, (), r),
{
    work()
}

/// A guard that keeps the runtime alive while at least one task runs.
pub struct RuntimeGuard {
    /// Number of live tasks.
    pub live_tasks: u32,
}

impl RuntimeGuard {
    /// Creates a guard tracking the given number of live tasks.
    pub fn new(live_tasks: u32) -> (r: RuntimeGuard)
        ensures
            r.live_tasks == live_tasks,
    {
        RuntimeGuard { live_tasks }
    }

    /// Marks a task as finished; the count never goes below zero.
    pub fn task_finished(&mut self)
        ensures
            final(self).live_tasks == if old(self).live_tasks == 0 {
                0
            } else {
                (old(self).live_tasks - 1) as u32
            },
    {
        self.live_tasks = self.live_tasks.saturating_sub(1);
    }
}

} // verus!
