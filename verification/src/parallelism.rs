use vstd::prelude::*;

verus! {

/// Ceiling on the default worker count.  Past this point the startup cost of
/// extra threads outweighs the diminishing returns from added parallelism.
pub const MAX_DEFAULT_THREADS: usize = 20;

/// The worker count chosen for a given hardware-parallelism measurement:
/// a failed query falls back to a single thread, and a measurement is
/// clamped into `[1, MAX_DEFAULT_THREADS]`.
pub open spec fn chosen_threads(parallelism: Option<usize>) -> usize {
    match parallelism {
        None => 1,
        Some(p) => if p == 0 {
            1
        } else if p > MAX_DEFAULT_THREADS {
            MAX_DEFAULT_THREADS
        } else {
            p
        },
    }
}

/// Pick the default number of worker threads, given the available hardware
/// parallelism as the caller measured it (`None` when the query failed).
///
/// The result is always positive, never exceeds `MAX_DEFAULT_THREADS`, and a
/// failed query yields exactly one thread; query failure is never surfaced.
pub fn default_num_threads(parallelism: Option<usize>) -> (n: usize)
    ensures
        n == chosen_threads(parallelism),
        1 <= n <= MAX_DEFAULT_THREADS,
        parallelism is None ==> n == 1,
{
    match parallelism {
        None => 1,
        Some(p) => {
            if p == 0 {
                1
            } else if p > MAX_DEFAULT_THREADS {
                MAX_DEFAULT_THREADS
            } else {
                p
            }
        },
    }
}

} // verus!
