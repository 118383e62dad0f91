use vstd::prelude::*;

use crate::batch::{OperationEntry, ResourceId, SCAN_WINDOW};
use crate::errors::ProtocolError;
use crate::inspector::{
    backward_scan_start, forward_scan_end, is_borrow_candidate, is_repay_candidate,
    le_u64_value, lemma_first_borrow_candidate_decides, lemma_first_repay_candidate_decides,
    lemma_no_borrow_candidate_means_missing, lemma_no_match_means_no_pairing,
    lemma_no_repay_candidate_means_missing, lemma_verdict_ok_iff_match, repay_resources_match,
};
use crate::ledger::{
    borrow_outcome, borrow_post, deposit_outcome, deposit_post, fee_of, repay_outcome,
    repay_post, withdraw_outcome,
};
use crate::pool::{initialized_pool, LoanPool, DEFAULT_FEE_BASIS_POINTS};

verus! {

// ---------------------------------------------------------------------
// The protocol-level guarantees, stated over the outcome functions that
// the executable transitions are proved to implement exactly.
// ---------------------------------------------------------------------

/// One successful ledger transition relates `p` to `q`: some deposit,
/// withdrawal, borrow or repay, in some batch, took `p` to `q`.
pub open spec fn ledger_step(p: LoanPool, q: LoanPool) -> bool {
    ||| exists|amount: u64|
        #[trigger] deposit_outcome(p, amount) == Ok::<LoanPool, ProtocolError>(q)
    ||| exists|amount: u64|
        #[trigger] withdraw_outcome(p, amount) == Ok::<LoanPool, ProtocolError>(q)
    ||| exists|
            vault_balance: u64,
            batch: Seq<OperationEntry>,
            self_index: int,
            protocol_id: ResourceId,
            pool_key: ResourceId,
            borrower_key: ResourceId,
            vault_key: ResourceId,
            amount: u64,
        |
        #[trigger] borrow_outcome(
            p,
            vault_balance,
            batch,
            self_index,
            protocol_id,
            pool_key,
            borrower_key,
            vault_key,
            amount,
        ) == Ok::<LoanPool, ProtocolError>(q)
    ||| exists|
            borrower_balance: u64,
            batch: Seq<OperationEntry>,
            self_index: int,
            protocol_id: ResourceId,
        |
        (#[trigger] repay_outcome(p, borrower_balance, batch, self_index, protocol_id)) matches
            Ok(pair) && pair.0 == q
}

/// Solvency is preserved by every successful ledger transition, whatever
/// its kind, amounts, and batch.
pub proof fn lemma_step_preserves_solvency(p: LoanPool, q: LoanPool)
    requires
        p.solvent(),
        ledger_step(p, q),
    ensures
        q.solvent(),
{
}

/// After any sequence of successful deposit, withdraw, borrow and repay
/// transitions from a solvent pool, the pool is solvent at every point:
/// `total_borrowed <= total_deposited` holds after every completed step.
pub proof fn lemma_trace_preserves_solvency(trace: Seq<LoanPool>)
    requires
        trace.len() > 0,
        trace[0].solvent(),
        forall|k: int|
            0 <= k < trace.len() - 1 ==> ledger_step(#[trigger] trace[k], trace[k + 1]),
    ensures
        forall|k: int| 0 <= k < trace.len() ==> (#[trigger] trace[k]).solvent(),
{
    assert forall|k: int| 0 <= k < trace.len() implies (#[trigger] trace[k]).solvent() by {
        lemma_trace_solvent_at(trace, k);
    }
}

proof fn lemma_trace_solvent_at(trace: Seq<LoanPool>, k: int)
    requires
        0 <= k < trace.len(),
        trace[0].solvent(),
        forall|j: int|
            0 <= j < trace.len() - 1 ==> ledger_step(#[trigger] trace[j], trace[j + 1]),
    ensures
        trace[k].solvent(),
    decreases k,
{
    if k > 0 {
        lemma_trace_solvent_at(trace, k - 1);
        lemma_step_preserves_solvency(trace[k - 1], trace[k]);
    }
}

/// Atomicity: a batch that contains no repay entry of this protocol
/// anywhere cannot satisfy a borrow. The borrow's outcome is an error —
/// `MissingRepayIx` whenever the ledger itself would have allowed the
/// loan — and on an error the borrow transition leaves the pool's
/// `total_deposited`, `total_borrowed` and `total_fees_collected`
/// exactly as they were.
pub proof fn lemma_borrow_without_repay_fails(
    p: LoanPool,
    vault_balance: u64,
    batch: Seq<OperationEntry>,
    self_index: int,
    protocol_id: ResourceId,
    pool_key: ResourceId,
    borrower_key: ResourceId,
    vault_key: ResourceId,
    amount: u64,
)
    requires
        0 <= self_index,
        forall|i: int|
            0 <= i < batch.len() ==> !is_repay_candidate(#[trigger] batch[i], protocol_id),
    ensures
        borrow_outcome(
            p,
            vault_balance,
            batch,
            self_index,
            protocol_id,
            pool_key,
            borrower_key,
            vault_key,
            amount,
        ) is Err,
        (amount > 0 && p.solvent() && p.total_deposited - p.total_borrowed >= amount
            && vault_balance >= amount) ==> borrow_outcome(
            p,
            vault_balance,
            batch,
            self_index,
            protocol_id,
            pool_key,
            borrower_key,
            vault_key,
            amount,
        ) == Err::<LoanPool, ProtocolError>(ProtocolError::MissingRepayIx),
{
    assert forall|j: int|
        self_index < j < forward_scan_end(batch.len() as int, self_index) implies
        !is_repay_candidate(#[trigger] batch[j], protocol_id) by {
        assert(0 <= j < batch.len());
    }
    lemma_no_repay_candidate_means_missing(
        batch,
        self_index,
        protocol_id,
        pool_key,
        borrower_key,
        vault_key,
    );
}

/// Atomicity, repay side: a batch that contains no borrow entry of this
/// protocol anywhere cannot satisfy a repay — nothing can be settled
/// that was never taken out. The repay fails with `MissingBorrowIx`,
/// and on an error the repay transition leaves the pool unchanged.
pub proof fn lemma_repay_without_borrow_fails(
    p: LoanPool,
    borrower_balance: u64,
    batch: Seq<OperationEntry>,
    self_index: int,
    protocol_id: ResourceId,
)
    requires
        self_index <= batch.len(),
        forall|i: int|
            0 <= i < batch.len() ==> !is_borrow_candidate(#[trigger] batch[i], protocol_id),
    ensures
        repay_outcome(p, borrower_balance, batch, self_index, protocol_id) == Err::<
            (LoanPool, u64),
            ProtocolError,
        >(ProtocolError::MissingBorrowIx),
{
    assert forall|j: int|
        backward_scan_start(self_index) <= j < self_index implies !is_borrow_candidate(
        #[trigger] batch[j],
        protocol_id,
    ) by {
        assert(0 <= j < batch.len());
    }
    lemma_no_borrow_candidate_means_missing(batch, self_index, protocol_id);
}

/// Resource binding: a batch whose repay-tagged entries of this protocol
/// all reference a different pool, borrower account or vault cannot
/// satisfy a borrow either — the scan fails with `MissingRepayIx` or
/// rejects the decoy with a binding error, and the pool is unchanged.
pub proof fn lemma_wrong_binding_rejected(
    p: LoanPool,
    vault_balance: u64,
    batch: Seq<OperationEntry>,
    self_index: int,
    protocol_id: ResourceId,
    pool_key: ResourceId,
    borrower_key: ResourceId,
    vault_key: ResourceId,
    amount: u64,
)
    requires
        0 <= self_index,
        forall|i: int|
            0 <= i < batch.len() ==> !(is_repay_candidate(#[trigger] batch[i], protocol_id)
                && repay_resources_match(batch[i], pool_key, borrower_key, vault_key)),
    ensures
        borrow_outcome(
            p,
            vault_balance,
            batch,
            self_index,
            protocol_id,
            pool_key,
            borrower_key,
            vault_key,
            amount,
        ) is Err,
{
    assert forall|j: int|
        self_index < j < forward_scan_end(batch.len() as int, self_index) implies
        !(is_repay_candidate(#[trigger] batch[j], protocol_id)
            && repay_resources_match(batch[j], pool_key, borrower_key, vault_key)) by {
        assert(0 <= j < batch.len());
    }
    lemma_no_match_means_no_pairing(
        batch,
        self_index,
        protocol_id,
        pool_key,
        borrower_key,
        vault_key,
    );
}

/// Round trip: starting from a fresh pool, deposit `d`, borrow
/// `b <= d` paired (in the batch) with a correctly bound repay, and let
/// that repay settle the loan. Every step succeeds, the repayer owes
/// exactly `b + floor(b * fee / 10_000)`, and the final ledger shows
/// `total_deposited == d`, `total_borrowed == 0`, and the fee collected.
///
/// The batch is given by the positions of the paired entries: the borrow
/// runs at `borrow_index` and finds the repay entry at `repay_index` as
/// the first tag match after it; the repay runs at `repay_index` and
/// finds the borrow entry, carrying amount `b`, as the first tag match
/// before it.
pub proof fn lemma_flash_loan_round_trip(
    authority: ResourceId,
    mint: ResourceId,
    bump: u8,
    d: u64,
    b: u64,
    vault_balance: u64,
    borrower_balance: u64,
    batch: Seq<OperationEntry>,
    borrow_index: int,
    repay_index: int,
    protocol_id: ResourceId,
    pool_key: ResourceId,
    borrower_key: ResourceId,
    vault_key: ResourceId,
)
    requires
        0 < b <= d,
        vault_balance >= b,
        b + fee_of(b, DEFAULT_FEE_BASIS_POINTS) <= borrower_balance,
        0 <= borrow_index < repay_index < batch.len(),
        repay_index - borrow_index <= SCAN_WINDOW as int,
        is_repay_candidate(batch[repay_index], protocol_id),
        repay_resources_match(batch[repay_index], pool_key, borrower_key, vault_key),
        is_borrow_candidate(batch[borrow_index], protocol_id),
        le_u64_value(batch[borrow_index].argument_bytes@) == b,
        forall|j: int|
            borrow_index < j < repay_index ==> !is_repay_candidate(
                #[trigger] batch[j],
                protocol_id,
            ) && !is_borrow_candidate(batch[j], protocol_id),
    ensures
        ({
            let p0 = initialized_pool(authority, mint, bump);
            let p1 = deposit_post(p0, d);
            let p2 = borrow_post(p1, b);
            let p3 = repay_post(p2, b);
            &&& deposit_outcome(p0, d) == Ok::<LoanPool, ProtocolError>(p1)
            &&& borrow_outcome(
                p1,
                vault_balance,
                batch,
                borrow_index,
                protocol_id,
                pool_key,
                borrower_key,
                vault_key,
                b,
            ) == Ok::<LoanPool, ProtocolError>(p2)
            &&& repay_outcome(p2, borrower_balance, batch, repay_index, protocol_id) == Ok::<
                (LoanPool, u64),
                ProtocolError,
            >((p3, (b + fee_of(b, DEFAULT_FEE_BASIS_POINTS)) as u64))
            &&& p3.total_deposited == d
            &&& p3.total_borrowed == 0
            &&& p3.total_fees_collected == fee_of(b, DEFAULT_FEE_BASIS_POINTS)
        }),
{
    let p0 = initialized_pool(authority, mint, bump);
    let p1 = deposit_post(p0, d);
    let p2 = borrow_post(p1, b);

    // The borrow's forward scan stops at the repay entry and accepts it.
    lemma_first_repay_candidate_decides(
        batch,
        borrow_index,
        repay_index,
        protocol_id,
        pool_key,
        borrower_key,
        vault_key,
    );
    lemma_verdict_ok_iff_match(batch[repay_index], pool_key, borrower_key, vault_key);

    // The repay's backward scan stops at the borrow entry and reads `b`.
    lemma_first_borrow_candidate_decides(batch, repay_index, borrow_index, protocol_id);
    assert(le_u64_value(batch[borrow_index].argument_bytes@) as u64 == b);

    // The fee never exceeds the amount, since the rate is below one whole.
    assert(fee_of(b, DEFAULT_FEE_BASIS_POINTS) <= b && fee_of(b, DEFAULT_FEE_BASIS_POINTS) >= 0)
        by (nonlinear_arith)
        requires b >= 0,
    ;
}

} // verus!
