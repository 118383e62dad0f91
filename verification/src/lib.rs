//! Verified core of a flash-loan protocol.
//!
//! A party may borrow from a shared per-asset pool with no collateral,
//! provided the same atomic batch of operations also contains a repay of
//! the borrowed amount plus a fee. Two components are verified here:
//!
//! * the atomic batch inspector ([`inspector`]), which proves that a
//!   borrow is paired with a later, correctly bound repay entry (and a
//!   repay with an earlier borrow entry) in the same batch; and
//! * the pool ledger ([`ledger`]), a state machine over the per-asset
//!   [`pool::LoanPool`] record whose four transitions (deposit, withdraw,
//!   borrow, repay) preserve solvency and never overflow silently.
//!
//! Asset transfers, account resolution and signature checks are the
//! surrounding environment's concern: the functions here take the values
//! that environment has already bound (balances, resource handles, the
//! batch) and decide, with exact contracts, what the ledger does.

pub mod batch;
pub mod errors;
pub mod inspector;
pub mod laws;
pub mod ledger;
pub mod pool;
