//! The handle of a thread pool.

use vstd::prelude::*;

verus! {

/// A pool of threads. The handle carries no state: no workers and no queue.
pub struct ThreadPool;

impl ThreadPool {
    /// Create a new pool.
    ///
    /// `size` is the number of threads in the pool. A pool of zero threads
    /// is not a pool, so `size` must be positive; every positive `size`
    /// yields a handle.
    pub fn new(size: usize) -> (pool: ThreadPool)
        requires
            size > 0,
        ensures
            pool == ThreadPool,
    {
        ThreadPool
    }

    /// Accepts a job for the pool. The handle has nothing to run it on, so
    /// `f` is dropped without being called.
    pub fn execute<F>(&self, f: F) where F: FnOnce() + Send + 'static {
    }
}

} // verus!
