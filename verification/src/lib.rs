//! A borrowing arena for stack-scoped values shared with spawned tasks.
//!
//! A [`bank::Bank`] is a handle to one contiguous storage block at a fixed
//! address. A [`vault::Vault`] is a slot holding one value together with two
//! borrow counters; it hands out shared ([`vault::Loan`]) and exclusive
//! ([`vault::LoanMut`]) capability tokens after validating that the slot is
//! placed inside the bank's storage. The counter protocol itself is modelled
//! in [`protocol`], and [`scope`] holds the lifecycle of the storage block
//! that backs a scoped computation.

use vstd::prelude::*;

pub mod bank;
pub mod protocol;
pub mod scope;
pub mod vault;

verus! {

pub use bank::Bank;
pub use protocol::Counters;
pub use scope::BankBuilder;
pub use scope::ScopePhase;
pub use vault::BorrowError;
pub use vault::Loan;
pub use vault::LoanMut;
pub use vault::Vault;

} // verus!
