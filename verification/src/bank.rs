//! The arena handle: a reference to one contiguous storage block, identified
//! by its start address and size, together with the placement check that
//! gates every borrow request.

use vstd::prelude::*;

verus! {

/// A handle to a single contiguous storage block.
///
/// Every capability token carries a copy of the handle of the bank it was
/// granted against, so the storage block backing the slot stays reachable for
/// as long as the token exists. The handle itself only knows the block's
/// address range; validation of a slot's placement is a pure range check.
#[derive(Clone, Copy, Debug, PartialEq, Eq, Structural)]
pub struct Bank {
    start: usize,
    size: usize,
}

impl Bank {
    /// The address of the first byte of the storage block.
    pub closed spec fn start(self) -> int {
        self.start as int
    }

    /// The size of the storage block in bytes.
    pub closed spec fn size(self) -> int {
        self.size as int
    }

    /// Whether `addr` lies inside the half-open range `[start, start + size)`
    /// covered by the storage block.
    pub open spec fn contains(self, addr: int) -> bool {
        self.start() <= addr < self.start() + self.size()
    }

    /// Wraps a storage block's address range into a handle.
    pub fn new(start: usize, size: usize) -> (b: Bank)
        ensures
            b.start() == start,
            b.size() == size,
    {
        Bank { start, size }
    }

    /// The placement check: whether `addr` falls inside the storage block.
    ///
    /// This is the soundness gate of the whole mechanism — a slot whose
    /// address is outside the block is not kept alive by this handle, so no
    /// capability may be granted for it.
    pub fn contains_addr(&self, addr: usize) -> (r: bool)
        ensures
            r == self.contains(addr as int),
    {
        addr >= self.start && addr - self.start < self.size
    }
}

} // verus!
