//! Bookkeeping for the COM library of a thread.

use vstd::prelude::*;

verus! {

/// The record that a thread keeps of the COM library: how many holders
/// currently need it.
///
/// The library has to be initialized when the first holder arrives and
/// uninitialized when the last one leaves. This record decides when that is;
/// the calls into the system are made by whoever owns the record.
pub struct ComLibraryHandle {
    holders: usize,
}

impl View for ComLibraryHandle {
    type V = nat;

    closed spec fn view(&self) -> nat {
        self.holders as nat
    }
}

impl ComLibraryHandle {
    /// A record with no holder: the library is not initialized.
    pub fn new() -> (handle: ComLibraryHandle)
        ensures
            handle@ == 0,
    {
        ComLibraryHandle { holders: 0 }
    }

    /// The number of holders.
    pub fn holders(&self) -> (count: usize)
        ensures
            count == self@,
    {
        self.holders
    }

    /// Whether the library is initialized, which it is while anyone holds it.
    pub fn is_initialized(&self) -> (initialized: bool)
        ensures
            initialized == (self@ > 0),
    {
        self.holders > 0
    }

    /// Adds a holder.
    ///
    /// Returns `true` where this is the first holder, so that the caller has
    /// to initialize the library now; `false` where the library is in use
    /// already.
    pub fn acquire(&mut self) -> (initialize: bool)
        requires
            old(self)@ < usize::MAX,
        ensures
            final(self)@ == old(self)@ + 1,
            initialize == (old(self)@ == 0),
    {
        let first = self.holders == 0;
        self.holders += 1;
        first
    }

    /// Takes a holder away. Without a holder nothing changes.
    ///
    /// Returns `true` where this was the last holder, so that the caller has
    /// to uninitialize the library now.
    pub fn release(&mut self) -> (uninitialize: bool)
        ensures
            final(self)@ == if old(self)@ > 0 {
                old(self)@ - 1
            } else {
                0
            },
            uninitialize == (old(self)@ == 1),
    {
        if self.holders == 0 {
            false
        } else {
            self.holders -= 1;
            self.holders == 0
        }
    }
}

} // verus!
