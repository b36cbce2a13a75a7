//! The lifecycle of the storage block backing a scoped computation.
//!
//! A scoped computation is moved into a freshly allocated storage block,
//! pinned there, and then driven to completion; tasks it spawns may borrow
//! its slots only while it is running. [`BankBuilder`] records that
//! lifecycle as a checked state machine: the storage is populated exactly
//! once, driving starts only after population, and completion is reached
//! only from the running state. The orchestration around it — allocating the
//! block, writing the computation into it, awaiting it — is the caller's
//! side and stays outside this library.

use vstd::prelude::*;

use crate::bank::Bank;

verus! {

/// Where the storage block stands in its lifecycle.
#[derive(Clone, Copy, Debug, PartialEq, Eq, Structural)]
pub enum ScopePhase {
    /// Allocated, but the computation has not been written into it yet.
    Empty,
    /// The computation has been written into the block, exactly once, and the
    /// block's address is fixed from here on.
    Populated,
    /// The computation is being driven; only now may external tasks borrow
    /// slots belonging to its local state.
    Running,
    /// The computation has finished. The storage itself lives on until the
    /// last handle or token referencing it is gone.
    Completed,
}

/// The builder of a scope's storage block: the block's address range plus
/// the phase of its lifecycle.
pub struct BankBuilder {
    storage_start: usize,
    storage_size: usize,
    phase: ScopePhase,
}

impl BankBuilder {
    /// The address of the first byte of the storage block.
    pub closed spec fn storage_start(self) -> int {
        self.storage_start as int
    }

    /// The size of the storage block in bytes.
    pub closed spec fn storage_size(self) -> int {
        self.storage_size as int
    }

    /// The current lifecycle phase.
    pub closed spec fn phase(self) -> ScopePhase {
        self.phase
    }

    /// Whether external tasks may borrow slots of the computation held in
    /// this storage block: only while it is being driven.
    pub open spec fn may_borrow(self) -> bool {
        self.phase() is Running
    }

    /// Records a freshly allocated storage block covering
    /// `[start, start + size)`, still empty.
    pub fn new(start: usize, size: usize) -> (b: BankBuilder)
        ensures
            b.storage_start() == start,
            b.storage_size() == size,
            b.phase() is Empty,
    {
        BankBuilder { storage_start: start, storage_size: size, phase: ScopePhase::Empty }
    }

    /// A handle to the storage block, to be passed to the computation and
    /// copied into every capability token granted on its slots.
    pub fn handle(&self) -> (b: Bank)
        ensures
            b.start() == self.storage_start(),
            b.size() == self.storage_size(),
    {
        Bank::new(self.storage_start, self.storage_size)
    }

    /// Records that the computation has been written into the storage block.
    /// Only an empty block can be populated, so this happens exactly once.
    pub fn populate(&mut self)
        requires
            old(self).phase() is Empty,
        ensures
            final(self).phase() is Populated,
            final(self).storage_start() == old(self).storage_start(),
            final(self).storage_size() == old(self).storage_size(),
    {
        self.phase = ScopePhase::Populated;
    }

    /// Records that the computation starts being driven. Driving an
    /// unpopulated block is ruled out here, so the computation is in place
    /// before anything can borrow from it.
    pub fn start(&mut self)
        requires
            old(self).phase() is Populated,
        ensures
            final(self).phase() is Running,
            final(self).may_borrow(),
            final(self).storage_start() == old(self).storage_start(),
            final(self).storage_size() == old(self).storage_size(),
    {
        self.phase = ScopePhase::Running;
    }

    /// Records that the computation has finished. The storage block itself
    /// is deallocated only when the last handle or token is dropped, which
    /// may be later.
    pub fn complete(&mut self)
        requires
            old(self).phase() is Running,
        ensures
            final(self).phase() is Completed,
            final(self).storage_start() == old(self).storage_start(),
            final(self).storage_size() == old(self).storage_size(),
    {
        self.phase = ScopePhase::Completed;
    }

    /// The current lifecycle phase.
    pub fn current_phase(&self) -> (p: ScopePhase)
        ensures
            p == self.phase(),
    {
        self.phase
    }
}

} // verus!
