//! The borrow-counted slot and its capability tokens.
//!
//! A [`Vault`] holds one value together with the two counters of
//! [`crate::protocol`] and its own placement address. A borrow request first
//! validates that placement against a [`crate::bank::Bank`] and then applies
//! the counter protocol; on success it hands out a token carrying a copy of
//! the bank handle and the slot's address. Tokens are plain linear values:
//! they cannot be duplicated on their own, a shared token is cloned only
//! through its vault (which counts the copy), and a token is destroyed by
//! handing it back to its vault, which releases the corresponding counter.

use vstd::prelude::*;

use crate::bank::Bank;
use crate::protocol::after_exclusive_grant;
use crate::protocol::after_exclusive_release;
use crate::protocol::after_shared_grant;
use crate::protocol::after_shared_release;
use crate::protocol::counters_wf;
use crate::protocol::exclusive_grant_allowed;
use crate::protocol::shared_grant_allowed;
use crate::protocol::Counters;

verus! {

/// Why a borrow request was refused.
#[derive(Clone, Copy, Debug, PartialEq, Eq, Structural)]
pub enum BorrowError {
    /// The slot's address is not inside the bank's storage block, so the bank
    /// cannot vouch for the slot's lifetime.
    InvalidPlacement,
    /// The request conflicts with an outstanding capability: an exclusive
    /// token exists, or an exclusive token was requested while any token
    /// exists.
    BorrowConflict,
}

/// A capability token granting shared, read-only access to one slot's value.
///
/// The token records the address of the slot it was granted for and keeps a
/// copy of the bank handle, so the storage block holding the slot stays alive
/// for the token's own lifetime.
pub struct Loan {
    bank: Bank,
    slot: usize,
}

/// A capability token granting exclusive, read-write access to one slot's
/// value. At most one exists per slot, and never beside a shared token.
pub struct LoanMut {
    bank: Bank,
    slot: usize,
}

impl Loan {
    /// The address of the slot this token was granted for.
    pub closed spec fn slot(self) -> int {
        self.slot as int
    }

    /// The bank handle the token carries.
    pub closed spec fn handle(self) -> Bank {
        self.bank
    }

    /// The address of the slot this token was granted for.
    pub fn slot_addr(&self) -> (a: usize)
        ensures
            a == self.slot(),
    {
        self.slot
    }

    /// The bank handle the token carries.
    pub fn bank(&self) -> (b: &Bank)
        ensures
            *b == self.handle(),
    {
        &self.bank
    }
}

impl LoanMut {
    /// The address of the slot this token was granted for.
    pub closed spec fn slot(self) -> int {
        self.slot as int
    }

    /// The bank handle the token carries.
    pub closed spec fn handle(self) -> Bank {
        self.bank
    }

    /// The address of the slot this token was granted for.
    pub fn slot_addr(&self) -> (a: usize)
        ensures
            a == self.slot(),
    {
        self.slot
    }

    /// The bank handle the token carries.
    pub fn bank(&self) -> (b: &Bank)
        ensures
            *b == self.handle(),
    {
        &self.bank
    }
}

/// The observable state of a vault: its value, its placement address, and
/// the counters of outstanding capabilities.
pub ghost struct VaultModel<T> {
    pub value: T,
    pub addr: int,
    pub counters: Counters,
}

/// A slot holding one value plus the counters of outstanding shared and
/// exclusive capabilities, placed at a fixed address.
pub struct Vault<T> {
    value: T,
    addr: usize,
    shared_count: usize,
    exclusive_count: usize,
}

impl<T> View for Vault<T> {
    type V = VaultModel<T>;

    closed spec fn view(&self) -> VaultModel<T> {
        VaultModel {
            value: self.value,
            addr: self.addr as int,
            counters: Counters {
                shared: self.shared_count as nat,
                exclusive: self.exclusive_count as nat,
            },
        }
    }
}

impl<T> Vault<T> {
    /// The counter invariant a vault maintains: at most one exclusive
    /// capability, and never beside a shared one.
    pub open spec fn wf(self) -> bool {
        counters_wf(self@.counters)
    }

    /// Creates a slot holding `value`, placed at address `addr`, with no
    /// outstanding capability of either kind.
    pub fn new(value: T, addr: usize) -> (v: Vault<T>)
        ensures
            v@.value == value,
            v@.addr == addr,
            v@.counters == (Counters { shared: 0, exclusive: 0 }),
            v.wf(),
    {
        Vault { value, addr, shared_count: 0, exclusive_count: 0 }
    }

    /// The placement check: whether this slot's address lies inside the
    /// storage block of `bank`, so that the bank's lifetime covers the
    /// slot's. A request against a bank that does not contain the slot is
    /// refused whatever the counters say.
    pub fn check_bank(&self, bank: &Bank) -> (r: bool)
        ensures
            r == bank.contains(self@.addr),
    {
        bank.contains_addr(self.addr)
    }

    /// Requests a shared capability on this slot.
    ///
    /// The request is granted exactly when the slot is placed inside `bank`'s
    /// storage and no exclusive capability is outstanding; the shared counter
    /// then rises by one and the returned token carries a copy of `bank` and
    /// the slot's address. Otherwise the slot is left unchanged and the
    /// matching error is returned.
    pub fn loan(&mut self, bank: &Bank) -> (r: Result<Loan, BorrowError>)
        requires
            old(self).wf(),
            old(self)@.counters.shared < usize::MAX,
        ensures
            final(self).wf(),
            final(self)@.value == old(self)@.value,
            final(self)@.addr == old(self)@.addr,
            !bank.contains(old(self)@.addr) ==> {
                &&& r == Err::<Loan, BorrowError>(BorrowError::InvalidPlacement)
                &&& final(self)@ == old(self)@
            },
            bank.contains(old(self)@.addr) && !shared_grant_allowed(old(self)@.counters) ==> {
                &&& r == Err::<Loan, BorrowError>(BorrowError::BorrowConflict)
                &&& final(self)@ == old(self)@
            },
            bank.contains(old(self)@.addr) && shared_grant_allowed(old(self)@.counters) ==> {
                &&& final(self)@.counters == after_shared_grant(old(self)@.counters)
                &&& r matches Ok(t) && t.slot() == old(self)@.addr && t.handle() == *bank
            },
    {
        if !self.check_bank(bank) {
            return Err(BorrowError::InvalidPlacement);
        }
        if self.exclusive_count != 0 {
            return Err(BorrowError::BorrowConflict);
        }
        self.shared_count = self.shared_count + 1;
        Ok(Loan { bank: *bank, slot: self.addr })
    }

    /// Requests an exclusive capability on this slot.
    ///
    /// The request is granted exactly when the slot is placed inside `bank`'s
    /// storage and no capability of either kind is outstanding; the exclusive
    /// counter is then set to one and the returned token carries a copy of
    /// `bank` and the slot's address. Otherwise the slot is left unchanged
    /// and the matching error is returned.
    pub fn loan_mut(&mut self, bank: &Bank) -> (r: Result<LoanMut, BorrowError>)
        requires
            old(self).wf(),
        ensures
            final(self).wf(),
            final(self)@.value == old(self)@.value,
            final(self)@.addr == old(self)@.addr,
            !bank.contains(old(self)@.addr) ==> {
                &&& r == Err::<LoanMut, BorrowError>(BorrowError::InvalidPlacement)
                &&& final(self)@ == old(self)@
            },
            bank.contains(old(self)@.addr) && !exclusive_grant_allowed(old(self)@.counters)
                ==> {
                &&& r == Err::<LoanMut, BorrowError>(BorrowError::BorrowConflict)
                &&& final(self)@ == old(self)@
            },
            bank.contains(old(self)@.addr) && exclusive_grant_allowed(old(self)@.counters)
                ==> {
                &&& final(self)@.counters == after_exclusive_grant(old(self)@.counters)
                &&& r matches Ok(t) && t.slot() == old(self)@.addr && t.handle() == *bank
            },
    {
        if !self.check_bank(bank) {
            return Err(BorrowError::InvalidPlacement);
        }
        if self.shared_count != 0 || self.exclusive_count != 0 {
            return Err(BorrowError::BorrowConflict);
        }
        self.exclusive_count = 1;
        Ok(LoanMut { bank: *bank, slot: self.addr })
    }

    /// Duplicates a live shared token, counting the copy.
    ///
    /// The shared counter rises by one and the new token grants access to the
    /// same slot, carrying its own copy of the bank handle so it keeps the
    /// storage alive independently of the token it was cloned from.
    pub fn clone_loan(&mut self, token: &Loan) -> (r: Loan)
        requires
            old(self).wf(),
            token.slot() == old(self)@.addr,
            old(self)@.counters.shared >= 1,
            old(self)@.counters.shared < usize::MAX,
        ensures
            final(self).wf(),
            final(self)@.value == old(self)@.value,
            final(self)@.addr == old(self)@.addr,
            final(self)@.counters == after_shared_grant(old(self)@.counters),
            r.slot() == token.slot(),
            r.handle() == token.handle(),
    {
        self.shared_count = self.shared_count + 1;
        Loan { bank: token.bank, slot: token.slot }
    }

    /// Destroys a shared token granted on this slot, releasing its count:
    /// the shared counter falls by exactly one and nothing else changes.
    pub fn release(&mut self, token: Loan)
        requires
            old(self).wf(),
            token.slot() == old(self)@.addr,
            old(self)@.counters.shared >= 1,
        ensures
            final(self).wf(),
            final(self)@.value == old(self)@.value,
            final(self)@.addr == old(self)@.addr,
            final(self)@.counters == after_shared_release(old(self)@.counters),
    {
        self.shared_count = self.shared_count - 1;
    }

    /// Destroys the exclusive token granted on this slot, releasing its
    /// count: the exclusive counter falls by exactly one, back to zero, and
    /// nothing else changes.
    pub fn release_mut(&mut self, token: LoanMut)
        requires
            old(self).wf(),
            token.slot() == old(self)@.addr,
            old(self)@.counters.exclusive == 1,
        ensures
            final(self).wf(),
            final(self)@.value == old(self)@.value,
            final(self)@.addr == old(self)@.addr,
            final(self)@.counters == after_exclusive_release(old(self)@.counters),
    {
        self.exclusive_count = 0;
    }

    /// Reads the slot's value through a live shared token.
    pub fn read(&self, token: &Loan) -> (r: &T)
        requires
            token.slot() == self@.addr,
            self@.counters.shared >= 1,
        ensures
            *r == self@.value,
    {
        &self.value
    }

    /// Reads the slot's value through the live exclusive token.
    pub fn read_mut(&self, token: &LoanMut) -> (r: &T)
        requires
            token.slot() == self@.addr,
            self@.counters.exclusive == 1,
        ensures
            *r == self@.value,
    {
        &self.value
    }

    /// Borrows the slot's value for writing through the live exclusive
    /// token. The borrow starts at the current value, and the slot ends up
    /// holding whatever the caller leaves behind; placement and counters are
    /// untouched.
    pub fn borrow_mut(&mut self, token: &LoanMut) -> (r: &mut T)
        requires
            token.slot() == old(self)@.addr,
            old(self)@.counters.exclusive == 1,
        ensures
            *r == old(self)@.value,
            final(self)@ == (VaultModel {
                value: *final(r),
                addr: old(self)@.addr,
                counters: old(self)@.counters,
            }),
    {
        &mut self.value
    }

    /// Reads the slot's value as its owner, without a token. This stands for
    /// the declaring computation's own access once the spawned work is done,
    /// so it is ruled out while an exclusive capability is outstanding.
    pub fn value(&self) -> (r: &T)
        requires
            self@.counters.exclusive == 0,
        ensures
            *r == self@.value,
    {
        &self.value
    }

    /// The number of outstanding shared capabilities.
    pub fn shared_count(&self) -> (n: usize)
        ensures
            n == self@.counters.shared,
    {
        self.shared_count
    }

    /// The number of outstanding exclusive capabilities.
    pub fn exclusive_count(&self) -> (n: usize)
        ensures
            n == self@.counters.exclusive,
    {
        self.exclusive_count
    }

    /// The address the slot was placed at.
    pub fn addr(&self) -> (a: usize)
        ensures
            a == self@.addr,
    {
        self.addr
    }
}

} // verus!
