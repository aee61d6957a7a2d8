//! A compiled compute pipeline: an opaque device handle paired with the one
//! hardware limit the dispatch-grid policies read, the maximum number of
//! threads per thread group.

use vstd::prelude::*;

verus! {

/// An immutable, shareable compiled pipeline. `H` is the caller's handle
/// type for the device-resident executable; this crate never looks inside
/// it, it only stores and returns it.
#[derive(Debug)]
pub struct Pipeline<H> {
    handle: H,
    max_total_threads: u64,
}

impl<H: Copy> Clone for Pipeline<H> {
    /// A pipeline handle is freely shareable; a clone is the same pipeline.
    fn clone(&self) -> (r: Self)
        ensures
            r == *self,
    {
        proof {
            use_type_invariant(self);
        }
        Pipeline { handle: self.handle, max_total_threads: self.max_total_threads }
    }
}

impl<H: Copy> Copy for Pipeline<H> {

}

impl<H> Pipeline<H> {
    /// Every pipeline allows at least one thread per group; the grid
    /// policies divide by this limit.
    #[verifier::type_invariant]
    pub closed spec fn wf(self) -> bool {
        self.max_total_threads >= 1
    }

    /// The handle this pipeline was built with.
    pub closed spec fn spec_handle(self) -> H {
        self.handle
    }

    /// The threads-per-group limit this pipeline was built with.
    pub closed spec fn spec_max_total_threads(self) -> u64 {
        self.max_total_threads
    }

    /// Packs a device handle with its threads-per-group limit.
    pub fn new(handle: H, max_total_threads: u64) -> (r: Self)
        requires
            1 <= max_total_threads,
        ensures
            r.spec_handle() == handle,
            r.spec_max_total_threads() == max_total_threads,
    {
        Pipeline { handle, max_total_threads }
    }

    /// The opaque device handle.
    pub fn handle(&self) -> (r: &H)
        ensures
            *r == self.spec_handle(),
    {
        &self.handle
    }

    /// The device's maximum threads-per-group for this pipeline.
    pub fn max_total_threads_per_threadgroup(&self) -> (r: u64)
        ensures
            r == self.spec_max_total_threads(),
            1 <= r,
    {
        proof {
            use_type_invariant(self);
        }
        self.max_total_threads
    }
}

} // verus!
