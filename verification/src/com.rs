//! Reference counting for the per-thread COM library initialization.
//!
//! The platform asks that the COM library be initialized once per thread
//! that uses it and uninitialized when that thread is done. The calls
//! themselves are the application's; this type decides, from the number of
//! outstanding acquisitions, when initialization and uninitialization are
//! actually due, so repeated acquisitions on one thread share a single
//! initialization.

use vstd::prelude::*;

verus! {

/// Tracks the handles a thread holds on the COM library: the library must
/// be initialized while the count is positive, exactly once.
pub struct ComLibraryHandle {
    /// Outstanding acquisitions on this thread.
    count: u64,
}

impl ComLibraryHandle {
    /// Outstanding acquisitions.
    pub closed spec fn spec_count(&self) -> u64 {
        self.count
    }

    /// A thread that has not acquired the library.
    pub fn new() -> (h: ComLibraryHandle)
        ensures
            h.spec_count() == 0,
    {
        ComLibraryHandle { count: 0 }
    }

    /// Outstanding acquisitions.
    pub fn count(&self) -> (c: u64)
        ensures
            c == self.spec_count(),
    {
        self.count
    }

    /// Acquires a handle on the COM library for the calling thread.
    /// Returns whether the library must now be initialized: exactly when
    /// this is the first outstanding acquisition.
    pub fn acquire(&mut self) -> (needs_init: bool)
        requires
            old(self).spec_count() < u64::MAX,
        ensures
            final(self).spec_count() == old(self).spec_count() + 1,
            needs_init == (old(self).spec_count() == 0),
    {
        let needs_init = self.count == 0;
        self.count = self.count + 1;
        needs_init
    }

    /// Releases one handle on the COM library. Returns whether the library
    /// must now be uninitialized: exactly when no acquisition remains.
    pub fn release(&mut self) -> (needs_uninit: bool)
        requires
            old(self).spec_count() > 0,
        ensures
            final(self).spec_count() == old(self).spec_count() - 1,
            needs_uninit == (old(self).spec_count() == 1),
    {
        self.count = self.count - 1;
        self.count == 0
    }
}

} // verus!
