//! How a runtime is set up.

use vstd::prelude::*;

verus! {

/// The settings of a runtime: the number of worker threads that drive its
/// executor.
pub struct RuntimeBuilder {
    num_threads: usize,
}

impl RuntimeBuilder {
    /// The number of worker threads that is set.
    pub closed spec fn spec_num_threads(&self) -> usize {
        self.num_threads
    }

    /// Settings for a runtime with one worker thread.
    pub fn new() -> (builder: Self)
        ensures
            builder.num_threads() == 1,
    {
        RuntimeBuilder { num_threads: 1 }
    }

    /// The same settings with `num_threads` worker threads.
    pub fn threads(self, num_threads: usize) -> (builder: Self)
        ensures
            builder.num_threads() == num_threads,
    {
        let mut builder = self;
        builder.num_threads = num_threads;
        builder
    }

    /// The number of worker threads that is set.
    #[verifier::when_used_as_spec(spec_num_threads)]
    pub fn num_threads(&self) -> (n: usize)
        ensures
            n == self.spec_num_threads(),
    {
        self.num_threads
    }
}

} // verus!
