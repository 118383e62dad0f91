use vstd::prelude::*;

use crate::batch::ResourceId;

verus! {

/// Fee charged per loan when a pool is created, in basis points
/// (1/100 of a percent): 500 = 5%.
pub const DEFAULT_FEE_BASIS_POINTS: u16 = 500;

/// Basis points in a whole: the denominator of the fee computation.
pub const BASIS_POINT_DENOMINATOR: u64 = 10_000;

/// The per-asset ledger: one record per supported asset, created once by
/// its authority and mutated only by the four ledger transitions.
#[derive(Clone, Copy, Debug, PartialEq, Eq, Structural)]
pub struct LoanPool {
    /// Identity permitted to initialize the pool; immutable thereafter.
    pub authority: ResourceId,
    /// Identifier of the fungible asset this pool holds; immutable.
    pub mint: ResourceId,
    /// Units currently held in the pool's vault on behalf of depositors.
    pub total_deposited: u64,
    /// Units currently out on loan, not yet repaid.
    pub total_borrowed: u64,
    /// Cumulative fee revenue; never decreases.
    pub total_fees_collected: u64,
    /// Fee per loan, in basis points.
    pub fee_basis_points: u16,
    /// Derivation seed of the pool's address, stored for the environment.
    pub bump: u8,
}

impl LoanPool {
    /// Solvency: no more is out on loan than was ever deposited, so the
    /// liquidity available to withdraw or borrow is
    /// `total_deposited - total_borrowed`.
    pub open spec fn solvent(self) -> bool {
        self.total_borrowed <= self.total_deposited
    }
}

/// The state a freshly initialized pool is in: all counters zero and the
/// default fee rate.
pub open spec fn initialized_pool(authority: ResourceId, mint: ResourceId, bump: u8) -> LoanPool {
    LoanPool {
        authority,
        mint,
        total_deposited: 0,
        total_borrowed: 0,
        total_fees_collected: 0,
        fee_basis_points: DEFAULT_FEE_BASIS_POINTS,
        bump,
    }
}

/// Creates the ledger record for a new pool. That no pool already exists
/// for the asset is the surrounding resource allocator's concern.
pub fn initialize_pool(authority: ResourceId, mint: ResourceId, bump: u8) -> (pool: LoanPool)
    ensures
        pool == initialized_pool(authority, mint, bump),
        pool.solvent(),
{
    LoanPool {
        authority,
        mint,
        total_deposited: 0,
        total_borrowed: 0,
        total_fees_collected: 0,
        fee_basis_points: DEFAULT_FEE_BASIS_POINTS,
        bump,
    }
}

} // verus!
