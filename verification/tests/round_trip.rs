use flash_loan::batch::{OperationEntry, OperationTag, ResourceId};
use flash_loan::errors::ProtocolError;
use flash_loan::ledger::{borrow, deposit, repay};
use flash_loan::pool::{initialize_pool, LoanPool};

fn rid(n: u64) -> ResourceId {
    ResourceId(n, 0, n, 0)
}

fn protocol() -> ResourceId {
    rid(7)
}

fn pool_key() -> ResourceId {
    rid(1)
}

fn borrower_key() -> ResourceId {
    rid(2)
}

fn vault_key() -> ResourceId {
    rid(3)
}

fn filler() -> OperationEntry {
    OperationEntry {
        issuing_protocol_id: rid(99),
        operation_tag: OperationTag::Other,
        argument_bytes: vec![],
        referenced_resources: vec![],
    }
}

fn repay_entry() -> OperationEntry {
    OperationEntry {
        issuing_protocol_id: protocol(),
        operation_tag: OperationTag::Repay,
        argument_bytes: vec![],
        referenced_resources: vec![
            rid(900),
            pool_key(),
            rid(901),
            borrower_key(),
            vault_key(),
            rid(902),
        ],
    }
}

fn borrow_entry(amount: u64) -> OperationEntry {
    OperationEntry {
        issuing_protocol_id: protocol(),
        operation_tag: OperationTag::Borrow,
        argument_bytes: amount.to_le_bytes().to_vec(),
        referenced_resources: vec![],
    }
}

/// The batch of a well-formed flash loan: the borrow at index 0, its
/// repay at index 1.
fn paired_batch(amount: u64) -> Vec<OperationEntry> {
    vec![borrow_entry(amount), repay_entry()]
}

fn funded_pool(d: u64) -> LoanPool {
    let mut pool = initialize_pool(rid(10), rid(20), 254);
    deposit(&mut pool, d).unwrap();
    pool
}

#[test]
fn flash_loan_round_trip_restores_the_pool_and_collects_the_fee() {
    let d = 1_000_000_000;
    let b = 1_000_000;
    let mut pool = funded_pool(d);
    let batch = paired_batch(b);

    let r = borrow(
        &mut pool,
        pool_key(),
        borrower_key(),
        vault_key(),
        d,
        &batch,
        0,
        protocol(),
        b,
    );
    assert_eq!(r, Ok(()));
    assert_eq!(pool.total_borrowed, b);
    assert_eq!(pool.total_deposited, d);

    // fee = floor(1_000_000 * 500 / 10_000) = 50_000.
    let owed = repay(&mut pool, &batch, 1, protocol(), u64::MAX);
    assert_eq!(owed, Ok(1_050_000));
    assert_eq!(pool.total_deposited, d);
    assert_eq!(pool.total_borrowed, 0);
    assert_eq!(pool.total_fees_collected, 50_000);
}

#[test]
fn borrow_without_any_repay_fails_and_leaves_the_pool_unchanged() {
    let d = 1_000_000;
    let mut pool = funded_pool(d);
    let before = pool;
    let batch = vec![borrow_entry(500), filler(), filler()];
    let r = borrow(
        &mut pool,
        pool_key(),
        borrower_key(),
        vault_key(),
        d,
        &batch,
        0,
        protocol(),
        500,
    );
    assert_eq!(r, Err(ProtocolError::MissingRepayIx));
    assert_eq!(pool, before);
}

#[test]
fn borrow_with_wrongly_bound_repay_fails_and_leaves_the_pool_unchanged() {
    let d = 1_000_000;
    let mut pool = funded_pool(d);
    let before = pool;
    let mut decoy = repay_entry();
    decoy.referenced_resources[1] = rid(66);
    let batch = vec![borrow_entry(500), decoy];
    let r = borrow(
        &mut pool,
        pool_key(),
        borrower_key(),
        vault_key(),
        d,
        &batch,
        0,
        protocol(),
        500,
    );
    assert_eq!(r, Err(ProtocolError::InvalidPool));
    assert_eq!(pool, before);
}

#[test]
fn borrow_of_zero_is_rejected() {
    let mut pool = funded_pool(1_000);
    let batch = paired_batch(0);
    let r = borrow(
        &mut pool,
        pool_key(),
        borrower_key(),
        vault_key(),
        1_000,
        &batch,
        0,
        protocol(),
        0,
    );
    assert_eq!(r, Err(ProtocolError::InvalidAmount));
}

#[test]
fn borrow_beyond_available_liquidity_is_rejected() {
    let mut pool = funded_pool(1_000);
    pool.total_borrowed = 400;
    let batch = paired_batch(601);
    let r = borrow(
        &mut pool,
        pool_key(),
        borrower_key(),
        vault_key(),
        1_000,
        &batch,
        0,
        protocol(),
        601,
    );
    assert_eq!(r, Err(ProtocolError::NotEnoughFunds));
    assert_eq!(pool.total_borrowed, 400);
}

#[test]
fn borrow_beyond_the_vault_balance_is_rejected() {
    // The ledger says 1_000 are available but the vault actually holds
    // only 99: the defensive check refuses the loan.
    let mut pool = funded_pool(1_000);
    let batch = paired_batch(100);
    let r = borrow(
        &mut pool,
        pool_key(),
        borrower_key(),
        vault_key(),
        99,
        &batch,
        0,
        protocol(),
        100,
    );
    assert_eq!(r, Err(ProtocolError::NotEnoughFunds));
}

#[test]
fn repay_without_any_borrow_fails_with_missing_borrow() {
    let mut pool = funded_pool(1_000);
    let before = pool;
    let batch = vec![filler(), repay_entry()];
    let r = repay(&mut pool, &batch, 1, protocol(), u64::MAX);
    assert_eq!(r, Err(ProtocolError::MissingBorrowIx));
    assert_eq!(pool, before);
}

#[test]
fn repay_with_insufficient_balance_is_rejected() {
    let d = 1_000_000_000;
    let b = 1_000_000;
    let mut pool = funded_pool(d);
    let batch = paired_batch(b);
    borrow(
        &mut pool,
        pool_key(),
        borrower_key(),
        vault_key(),
        d,
        &batch,
        0,
        protocol(),
        b,
    )
    .unwrap();
    let before = pool;
    // One unit short of borrowed + fee.
    let r = repay(&mut pool, &batch, 1, protocol(), 1_049_999);
    assert_eq!(r, Err(ProtocolError::NotEnoughFunds));
    assert_eq!(pool, before);
    assert_eq!(repay(&mut pool, &batch, 1, protocol(), 1_050_000), Ok(1_050_000));
}

#[test]
fn repay_of_more_than_is_out_on_loan_is_rejected() {
    // The paired borrow entry claims 600 but the ledger only has 500
    // reserved: the checked release refuses to wrap.
    let mut pool = funded_pool(1_000);
    pool.total_borrowed = 500;
    let before = pool;
    let batch = paired_batch(600);
    let r = repay(&mut pool, &batch, 1, protocol(), u64::MAX);
    assert_eq!(r, Err(ProtocolError::Overflow));
    assert_eq!(pool, before);
}

#[test]
fn repay_fee_computation_tolerates_the_maximum_amount() {
    // The fee is computed in 128-bit arithmetic: the intermediate
    // product for the largest representable loan does not wrap, and the
    // checked total surfaces Overflow instead of wrapping.
    let mut pool = funded_pool(u64::MAX);
    pool.total_borrowed = u64::MAX;
    let batch = paired_batch(u64::MAX);
    let r = repay(&mut pool, &batch, 1, protocol(), u64::MAX);
    assert_eq!(r, Err(ProtocolError::Overflow));
    assert_eq!(pool.total_borrowed, u64::MAX);
}

#[test]
fn fee_rate_at_the_u16_maximum_cannot_wrap_the_fee() {
    // At 65_535 basis points the fee itself would exceed u64::MAX for
    // amounts near the maximum; the wide computation surfaces Overflow.
    let mut pool = funded_pool(u64::MAX);
    pool.total_borrowed = u64::MAX;
    pool.fee_basis_points = u16::MAX;
    let batch = paired_batch(u64::MAX);
    let r = repay(&mut pool, &batch, 1, protocol(), u64::MAX);
    assert_eq!(r, Err(ProtocolError::Overflow));
}
