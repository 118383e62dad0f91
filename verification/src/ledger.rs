use vstd::prelude::*;

use crate::batch::{OperationEntry, ResourceId};
use crate::errors::ProtocolError;
use crate::inspector::{borrow_search, find_paired_borrow, find_paired_repay, repay_search};
use crate::pool::{LoanPool, BASIS_POINT_DENOMINATOR};

verus! {

// ---------------------------------------------------------------------
// The model of the four ledger transitions.
//
// Each transition either fully applies or is rejected before any
// mutation, so a failed operation observes and leaves the pool exactly
// as it was; the environment's all-or-nothing guarantee then discards
// the rest of the atomic unit.
// ---------------------------------------------------------------------

/// The fee a loan of `amount` owes: `floor(amount * fee_basis_points / 10_000)`.
pub open spec fn fee_of(amount: u64, fee_basis_points: u16) -> int {
    (amount * fee_basis_points) / (BASIS_POINT_DENOMINATOR as int)
}

/// The pool after a successful deposit of `amount`.
pub open spec fn deposit_post(p: LoanPool, amount: u64) -> LoanPool {
    LoanPool { total_deposited: (p.total_deposited + amount) as u64, ..p }
}

/// The pool after a successful withdrawal of `amount`.
pub open spec fn withdraw_post(p: LoanPool, amount: u64) -> LoanPool {
    LoanPool { total_deposited: (p.total_deposited - amount) as u64, ..p }
}

/// The pool after a successful borrow of `amount`: the amount is
/// reserved until the paired repay releases it.
pub open spec fn borrow_post(p: LoanPool, amount: u64) -> LoanPool {
    LoanPool { total_borrowed: (p.total_borrowed + amount) as u64, ..p }
}

/// The pool after a successful repay of a loan of `amount_borrowed`:
/// the reservation is released and the fee recorded.
pub open spec fn repay_post(p: LoanPool, amount_borrowed: u64) -> LoanPool {
    LoanPool {
        total_borrowed: (p.total_borrowed - amount_borrowed) as u64,
        total_fees_collected: (p.total_fees_collected
            + fee_of(amount_borrowed, p.fee_basis_points)) as u64,
        ..p
    }
}

/// What a deposit of `amount` does to pool `p`: the new pool, or the
/// error on exactly the inputs that are rejected.
pub open spec fn deposit_outcome(p: LoanPool, amount: u64) -> Result<LoanPool, ProtocolError> {
    if amount == 0 {
        Err(ProtocolError::InvalidAmount)
    } else if p.total_deposited + amount > u64::MAX {
        Err(ProtocolError::Overflow)
    } else {
        Ok(deposit_post(p, amount))
    }
}

/// What a withdrawal of `amount` does to pool `p`. Only liquidity not
/// out on loan may leave: `total_deposited - total_borrowed`. A pool
/// with more out on loan than deposited — unreachable through the
/// verified transitions — is refused defensively with `Overflow`, the
/// error of a checked subtraction that would wrap.
pub open spec fn withdraw_outcome(p: LoanPool, amount: u64) -> Result<LoanPool, ProtocolError> {
    if amount == 0 {
        Err(ProtocolError::InvalidAmount)
    } else if p.total_borrowed > p.total_deposited {
        Err(ProtocolError::Overflow)
    } else if p.total_deposited - p.total_borrowed < amount {
        Err(ProtocolError::NotEnoughFunds)
    } else {
        Ok(withdraw_post(p, amount))
    }
}

/// What a borrow of `amount` does to pool `p`: rejected unless the
/// amount is positive, within the available liquidity, covered by the
/// vault's actual balance, and paired with a correctly bound repay entry
/// later in the batch. As in a withdrawal, an insolvent pool is refused
/// defensively with `Overflow`.
pub open spec fn borrow_outcome(
    p: LoanPool,
    vault_balance: u64,
    batch: Seq<OperationEntry>,
    self_index: int,
    protocol_id: ResourceId,
    pool_key: ResourceId,
    borrower_key: ResourceId,
    vault_key: ResourceId,
    amount: u64,
) -> Result<LoanPool, ProtocolError> {
    if amount == 0 {
        Err(ProtocolError::InvalidAmount)
    } else if p.total_borrowed > p.total_deposited {
        Err(ProtocolError::Overflow)
    } else if p.total_deposited - p.total_borrowed < amount {
        Err(ProtocolError::NotEnoughFunds)
    } else if vault_balance < amount {
        Err(ProtocolError::NotEnoughFunds)
    } else {
        match repay_search(
            batch,
            self_index,
            self_index + 1,
            protocol_id,
            pool_key,
            borrower_key,
            vault_key,
        ) {
            Err(e) => Err(e),
            Ok(_) => Ok(borrow_post(p, amount)),
        }
    }
}

/// What a repay does to pool `p`, and the exact amount the repayer owes:
/// the borrowed amount recovered from the paired borrow entry, plus the
/// fee. Rejected when no paired borrow exists, when a checked step would
/// wrap, or when the repayer's balance cannot cover the total.
pub open spec fn repay_outcome(
    p: LoanPool,
    borrower_balance: u64,
    batch: Seq<OperationEntry>,
    self_index: int,
    protocol_id: ResourceId,
) -> Result<(LoanPool, u64), ProtocolError> {
    match borrow_search(batch, self_index, self_index - 1, protocol_id) {
        Err(e) => Err(e),
        Ok(amount_borrowed) => {
            let fee = fee_of(amount_borrowed, p.fee_basis_points);
            if fee > u64::MAX {
                Err(ProtocolError::Overflow)
            } else if amount_borrowed + fee > u64::MAX {
                Err(ProtocolError::Overflow)
            } else if borrower_balance < amount_borrowed + fee {
                Err(ProtocolError::NotEnoughFunds)
            } else if amount_borrowed > p.total_borrowed {
                Err(ProtocolError::Overflow)
            } else if p.total_fees_collected + fee > u64::MAX {
                Err(ProtocolError::Overflow)
            } else {
                Ok((repay_post(p, amount_borrowed), (amount_borrowed + fee) as u64))
            }
        },
    }
}

// ---------------------------------------------------------------------
// Executable transitions.
// ---------------------------------------------------------------------

/// Deposits `amount` into the pool. The matching asset transfer from the
/// depositor to the vault is the environment's action; the ledger update
/// here is only valid within an atomic unit where that transfer succeeds.
pub fn deposit(pool: &mut LoanPool, amount: u64) -> (r: Result<(), ProtocolError>)
    ensures
        (match r {
            Ok(_) => deposit_outcome(*old(pool), amount) == Ok::<LoanPool, ProtocolError>(
                *final(pool),
            ),
            Err(e) => deposit_outcome(*old(pool), amount) == Err::<LoanPool, ProtocolError>(e)
                && *final(pool) == *old(pool),
        }),
        old(pool).solvent() ==> final(pool).solvent(),
{
    if amount == 0 {
        return Err(ProtocolError::InvalidAmount);
    }
    if pool.total_deposited > u64::MAX - amount {
        return Err(ProtocolError::Overflow);
    }
    pool.total_deposited = pool.total_deposited + amount;
    Ok(())
}

/// Withdraws `amount` of un-lent liquidity; the matching transfer from
/// the vault to the withdrawer is the environment's action.
pub fn withdraw(pool: &mut LoanPool, amount: u64) -> (r: Result<(), ProtocolError>)
    ensures
        (match r {
            Ok(_) => withdraw_outcome(*old(pool), amount) == Ok::<LoanPool, ProtocolError>(
                *final(pool),
            ),
            Err(e) => withdraw_outcome(*old(pool), amount) == Err::<LoanPool, ProtocolError>(e)
                && *final(pool) == *old(pool),
        }),
        old(pool).solvent() ==> final(pool).solvent(),
{
    if amount == 0 {
        return Err(ProtocolError::InvalidAmount);
    }
    if pool.total_borrowed > pool.total_deposited {
        return Err(ProtocolError::Overflow);
    }
    let available = pool.total_deposited - pool.total_borrowed;
    if available < amount {
        return Err(ProtocolError::NotEnoughFunds);
    }
    pool.total_deposited = pool.total_deposited - amount;
    Ok(())
}

/// Takes a flash loan of `borrow_amount`. Succeeds only when the amount
/// is positive, within the available liquidity, covered by the vault's
/// actual balance (`vault_balance`, a defence against the ledger and the
/// vault drifting apart), and paired with a repay entry later in the
/// batch that binds to the same pool, borrower account and vault. On any
/// failure the pool is unchanged; the environment then discards the
/// whole atomic unit, including the outbound transfer it performs on
/// success.
pub fn borrow(
    pool: &mut LoanPool,
    pool_key: ResourceId,
    borrower_key: ResourceId,
    vault_key: ResourceId,
    vault_balance: u64,
    batch: &Vec<OperationEntry>,
    self_index: usize,
    protocol_id: ResourceId,
    borrow_amount: u64,
) -> (r: Result<(), ProtocolError>)
    requires
        self_index < batch@.len(),
    ensures
        (match r {
            Ok(_) => borrow_outcome(
                *old(pool),
                vault_balance,
                batch@,
                self_index as int,
                protocol_id,
                pool_key,
                borrower_key,
                vault_key,
                borrow_amount,
            ) == Ok::<LoanPool, ProtocolError>(*final(pool)),
            Err(e) => borrow_outcome(
                *old(pool),
                vault_balance,
                batch@,
                self_index as int,
                protocol_id,
                pool_key,
                borrower_key,
                vault_key,
                borrow_amount,
            ) == Err::<LoanPool, ProtocolError>(e) && *final(pool) == *old(pool),
        }),
        old(pool).solvent() ==> final(pool).solvent(),
{
    if borrow_amount == 0 {
        return Err(ProtocolError::InvalidAmount);
    }
    if pool.total_borrowed > pool.total_deposited {
        return Err(ProtocolError::Overflow);
    }
    let available = pool.total_deposited - pool.total_borrowed;
    if available < borrow_amount {
        return Err(ProtocolError::NotEnoughFunds);
    }
    if vault_balance < borrow_amount {
        return Err(ProtocolError::NotEnoughFunds);
    }
    match find_paired_repay(batch, self_index, protocol_id, pool_key, borrower_key, vault_key) {
        Err(e) => Err(e),
        Ok(_) => {
            pool.total_borrowed = pool.total_borrowed + borrow_amount;
            Ok(())
        },
    }
}

/// Pays a flash loan back. The owed amount is never supplied by the
/// caller: it is recovered from the paired borrow entry earlier in the
/// batch, and the fee added on top. Returns the exact total the
/// environment must transfer from the repayer to the vault.
pub fn repay(
    pool: &mut LoanPool,
    batch: &Vec<OperationEntry>,
    self_index: usize,
    protocol_id: ResourceId,
    borrower_balance: u64,
) -> (r: Result<u64, ProtocolError>)
    requires
        self_index < batch@.len(),
    ensures
        (match r {
            Ok(repay_amount) => repay_outcome(
                *old(pool),
                borrower_balance,
                batch@,
                self_index as int,
                protocol_id,
            ) == Ok::<(LoanPool, u64), ProtocolError>((*final(pool), repay_amount)),
            Err(e) => repay_outcome(
                *old(pool),
                borrower_balance,
                batch@,
                self_index as int,
                protocol_id,
            ) == Err::<(LoanPool, u64), ProtocolError>(e) && *final(pool) == *old(pool),
        }),
        old(pool).solvent() ==> final(pool).solvent(),
{
    let amount_borrowed = match find_paired_borrow(batch, self_index, protocol_id) {
        Ok(amount) => amount,
        Err(e) => {
            return Err(e);
        },
    };
    proof {
        assert((amount_borrowed as u128) * (pool.fee_basis_points as u128)
            <= (u64::MAX as u128) * (u16::MAX as u128)) by (nonlinear_arith)
            requires
                amount_borrowed <= u64::MAX,
                pool.fee_basis_points <= u16::MAX,
        ;
    }
    let fee_wide: u128 =
        (amount_borrowed as u128) * (pool.fee_basis_points as u128) / (BASIS_POINT_DENOMINATOR
            as u128);
    if fee_wide > u64::MAX as u128 {
        return Err(ProtocolError::Overflow);
    }
    let fee = fee_wide as u64;
    if amount_borrowed > u64::MAX - fee {
        return Err(ProtocolError::Overflow);
    }
    let repay_amount = amount_borrowed + fee;
    if borrower_balance < repay_amount {
        return Err(ProtocolError::NotEnoughFunds);
    }
    if amount_borrowed > pool.total_borrowed {
        return Err(ProtocolError::Overflow);
    }
    if pool.total_fees_collected > u64::MAX - fee {
        return Err(ProtocolError::Overflow);
    }
    pool.total_borrowed = pool.total_borrowed - amount_borrowed;
    pool.total_fees_collected = pool.total_fees_collected + fee;
    Ok(repay_amount)
}

} // verus!
