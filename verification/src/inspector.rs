use vstd::prelude::*;

use crate::batch::{
    OperationEntry, OperationTag, ResourceId, AMOUNT_BYTES, BORROWER_RESOURCE_POSITION,
    MIN_REPAY_RESOURCES, POOL_RESOURCE_POSITION, SCAN_WINDOW, VAULT_RESOURCE_POSITION,
};
use crate::errors::ProtocolError;

verus! {

// ---------------------------------------------------------------------
// The model of the two scans.
//
// Both scans are bounded: an entry more than SCAN_WINDOW positions away
// from the current one is never considered, capping the cost of the
// check. A scan stops at the first entry of this protocol that carries
// the sought tag; for the forward (repay) scan the bindings of that
// first match decide the verdict, so a tag-matched decoy with wrong
// bindings fails the borrow rather than being scanned past.
// ---------------------------------------------------------------------

/// An entry that the forward scan treats as the counterpart repay:
/// issued by this protocol and tagged as a repay.
pub open spec fn is_repay_candidate(entry: OperationEntry, protocol_id: ResourceId) -> bool {
    entry.issuing_protocol_id == protocol_id && entry.operation_tag == OperationTag::Repay
}

/// An entry that the backward scan treats as the paired borrow: issued
/// by this protocol, tagged as a borrow, and long enough to carry the
/// borrowed amount.
pub open spec fn is_borrow_candidate(entry: OperationEntry, protocol_id: ResourceId) -> bool {
    entry.issuing_protocol_id == protocol_id
        && entry.operation_tag == OperationTag::Borrow
        && entry.argument_bytes@.len() >= AMOUNT_BYTES as nat
}

/// A repay entry binds to the borrow when, at the protocol-defined fixed
/// positions, it references the same pool account, the same borrower
/// asset account, and the same pool vault account.
pub open spec fn repay_resources_match(
    entry: OperationEntry,
    pool_key: ResourceId,
    borrower_key: ResourceId,
    vault_key: ResourceId,
) -> bool {
    &&& entry.referenced_resources@.len() >= MIN_REPAY_RESOURCES as nat
    &&& entry.referenced_resources@[POOL_RESOURCE_POSITION as int] == pool_key
    &&& entry.referenced_resources@[BORROWER_RESOURCE_POSITION as int] == borrower_key
    &&& entry.referenced_resources@[VAULT_RESOURCE_POSITION as int] == vault_key
}

/// The verdict on the first tag-matched repay entry: accepted only if
/// every binding matches, and otherwise rejected with the error naming
/// the first binding that differs.
pub open spec fn repay_candidate_verdict(
    entry: OperationEntry,
    pool_key: ResourceId,
    borrower_key: ResourceId,
    vault_key: ResourceId,
) -> Result<(), ProtocolError> {
    if entry.referenced_resources@.len() < MIN_REPAY_RESOURCES as nat {
        Err(ProtocolError::InvalidIx)
    } else if entry.referenced_resources@[POOL_RESOURCE_POSITION as int] != pool_key {
        Err(ProtocolError::InvalidPool)
    } else if entry.referenced_resources@[BORROWER_RESOURCE_POSITION as int] != borrower_key {
        Err(ProtocolError::InvalidBorrowerAta)
    } else if entry.referenced_resources@[VAULT_RESOURCE_POSITION as int] != vault_key {
        Err(ProtocolError::InvalidPoolAta)
    } else {
        Ok(())
    }
}

/// First index past the forward scan window: entries at
/// `self_index + 1 ..= self_index + SCAN_WINDOW` are considered, clipped
/// to the batch length.
pub open spec fn forward_scan_end(batch_len: int, self_index: int) -> int {
    if batch_len < self_index + (SCAN_WINDOW as int) + 1 {
        batch_len
    } else {
        self_index + (SCAN_WINDOW as int) + 1
    }
}

/// First index of the backward scan window: entries at
/// `self_index - SCAN_WINDOW ..= self_index - 1` are considered, clipped
/// at the start of the batch.
pub open spec fn backward_scan_start(self_index: int) -> int {
    if self_index - (SCAN_WINDOW as int) > 0 {
        self_index - (SCAN_WINDOW as int)
    } else {
        0
    }
}

/// The forward scan from index `i`: the verdict on the first repay
/// candidate at or after `i` within the window, or `MissingRepayIx` if
/// the window holds none.
pub open spec fn repay_search(
    batch: Seq<OperationEntry>,
    self_index: int,
    i: int,
    protocol_id: ResourceId,
    pool_key: ResourceId,
    borrower_key: ResourceId,
    vault_key: ResourceId,
) -> Result<(), ProtocolError>
    decreases forward_scan_end(batch.len() as int, self_index) - i,
{
    if i < self_index + 1 || i >= forward_scan_end(batch.len() as int, self_index) {
        Err(ProtocolError::MissingRepayIx)
    } else if is_repay_candidate(batch[i], protocol_id) {
        repay_candidate_verdict(batch[i], pool_key, borrower_key, vault_key)
    } else {
        repay_search(batch, self_index, i + 1, protocol_id, pool_key, borrower_key, vault_key)
    }
}

/// The borrowed amount a borrow entry carries: its first eight payload
/// bytes, read as a little-endian unsigned 64-bit integer.
pub open spec fn le_u64_value(bytes: Seq<u8>) -> int
    recommends
        bytes.len() >= AMOUNT_BYTES as nat,
{
    bytes[0] + bytes[1] * 0x100 + bytes[2] * 0x1_0000 + bytes[3] * 0x100_0000
        + bytes[4] * 0x1_0000_0000 + bytes[5] * 0x100_0000_0000
        + bytes[6] * 0x1_0000_0000_0000 + bytes[7] * 0x100_0000_0000_0000
}

/// The backward scan from index `i` down: the amount carried by the
/// first borrow candidate at or before `i` within the window, or
/// `MissingBorrowIx` if the window holds none.
pub open spec fn borrow_search(
    batch: Seq<OperationEntry>,
    self_index: int,
    i: int,
    protocol_id: ResourceId,
) -> Result<u64, ProtocolError>
    decreases i + 1,
{
    if i < backward_scan_start(self_index) || i >= self_index {
        Err(ProtocolError::MissingBorrowIx)
    } else if is_borrow_candidate(batch[i], protocol_id) {
        Ok(le_u64_value(batch[i].argument_bytes@) as u64)
    } else {
        borrow_search(batch, self_index, i - 1, protocol_id)
    }
}

// ---------------------------------------------------------------------
// What the scans find, characterized without recursion.
// ---------------------------------------------------------------------

/// The verdict on a candidate accepts exactly the correctly bound entries.
pub proof fn lemma_verdict_ok_iff_match(
    entry: OperationEntry,
    pool_key: ResourceId,
    borrower_key: ResourceId,
    vault_key: ResourceId,
)
    ensures
        repay_candidate_verdict(entry, pool_key, borrower_key, vault_key) == Ok::<
            (),
            ProtocolError,
        >(()) <==> repay_resources_match(entry, pool_key, borrower_key, vault_key),
{
}

proof fn lemma_repay_search_no_candidate_from(
    batch: Seq<OperationEntry>,
    self_index: int,
    i: int,
    protocol_id: ResourceId,
    pool_key: ResourceId,
    borrower_key: ResourceId,
    vault_key: ResourceId,
)
    requires
        forall|j: int|
            i <= j < forward_scan_end(batch.len() as int, self_index)
                ==> !is_repay_candidate(#[trigger] batch[j], protocol_id),
    ensures
        repay_search(batch, self_index, i, protocol_id, pool_key, borrower_key, vault_key)
            == Err::<(), ProtocolError>(ProtocolError::MissingRepayIx),
    decreases forward_scan_end(batch.len() as int, self_index) - i,
{
    let end = forward_scan_end(batch.len() as int, self_index);
    if i < self_index + 1 || i >= end {
    } else {
        lemma_repay_search_no_candidate_from(
            batch,
            self_index,
            i + 1,
            protocol_id,
            pool_key,
            borrower_key,
            vault_key,
        );
    }
}

/// A window with no repay candidate at all makes the forward scan fail
/// with `MissingRepayIx`.
pub proof fn lemma_no_repay_candidate_means_missing(
    batch: Seq<OperationEntry>,
    self_index: int,
    protocol_id: ResourceId,
    pool_key: ResourceId,
    borrower_key: ResourceId,
    vault_key: ResourceId,
)
    requires
        forall|j: int|
            self_index < j < forward_scan_end(batch.len() as int, self_index)
                ==> !is_repay_candidate(#[trigger] batch[j], protocol_id),
    ensures
        repay_search(
            batch,
            self_index,
            self_index + 1,
            protocol_id,
            pool_key,
            borrower_key,
            vault_key,
        ) == Err::<(), ProtocolError>(ProtocolError::MissingRepayIx),
{
    lemma_repay_search_no_candidate_from(
        batch,
        self_index,
        self_index + 1,
        protocol_id,
        pool_key,
        borrower_key,
        vault_key,
    );
}

proof fn lemma_repay_search_first_candidate_from(
    batch: Seq<OperationEntry>,
    self_index: int,
    i: int,
    k: int,
    protocol_id: ResourceId,
    pool_key: ResourceId,
    borrower_key: ResourceId,
    vault_key: ResourceId,
)
    requires
        self_index < i <= k,
        k < forward_scan_end(batch.len() as int, self_index),
        is_repay_candidate(batch[k], protocol_id),
        forall|j: int| i <= j < k ==> !is_repay_candidate(#[trigger] batch[j], protocol_id),
    ensures
        repay_search(batch, self_index, i, protocol_id, pool_key, borrower_key, vault_key)
            == repay_candidate_verdict(batch[k], pool_key, borrower_key, vault_key),
    decreases k - i,
{
    if i < k {
        lemma_repay_search_first_candidate_from(
            batch,
            self_index,
            i + 1,
            k,
            protocol_id,
            pool_key,
            borrower_key,
            vault_key,
        );
    }
}

/// The forward scan's result is the verdict on the first repay candidate
/// in the window: its bindings decide, and later entries are not reached.
pub proof fn lemma_first_repay_candidate_decides(
    batch: Seq<OperationEntry>,
    self_index: int,
    k: int,
    protocol_id: ResourceId,
    pool_key: ResourceId,
    borrower_key: ResourceId,
    vault_key: ResourceId,
)
    requires
        self_index < k < forward_scan_end(batch.len() as int, self_index),
        is_repay_candidate(batch[k], protocol_id),
        forall|j: int|
            self_index < j < k ==> !is_repay_candidate(#[trigger] batch[j], protocol_id),
    ensures
        repay_search(
            batch,
            self_index,
            self_index + 1,
            protocol_id,
            pool_key,
            borrower_key,
            vault_key,
        ) == repay_candidate_verdict(batch[k], pool_key, borrower_key, vault_key),
{
    lemma_repay_search_first_candidate_from(
        batch,
        self_index,
        self_index + 1,
        k,
        protocol_id,
        pool_key,
        borrower_key,
        vault_key,
    );
}

proof fn lemma_repay_search_err_without_match_from(
    batch: Seq<OperationEntry>,
    self_index: int,
    i: int,
    protocol_id: ResourceId,
    pool_key: ResourceId,
    borrower_key: ResourceId,
    vault_key: ResourceId,
)
    requires
        forall|j: int|
            i <= j < forward_scan_end(batch.len() as int, self_index)
                ==> !(is_repay_candidate(#[trigger] batch[j], protocol_id)
                    && repay_resources_match(batch[j], pool_key, borrower_key, vault_key)),
    ensures
        repay_search(batch, self_index, i, protocol_id, pool_key, borrower_key, vault_key)
            is Err,
    decreases forward_scan_end(batch.len() as int, self_index) - i,
{
    let end = forward_scan_end(batch.len() as int, self_index);
    if i < self_index + 1 || i >= end {
    } else if is_repay_candidate(batch[i], protocol_id) {
        lemma_verdict_ok_iff_match(batch[i], pool_key, borrower_key, vault_key);
    } else {
        lemma_repay_search_err_without_match_from(
            batch,
            self_index,
            i + 1,
            protocol_id,
            pool_key,
            borrower_key,
            vault_key,
        );
    }
}

/// Without an entry that both carries the repay tag of this protocol and
/// binds to the given pool, borrower account and vault, the forward scan
/// never succeeds: at best a tag-matched decoy turns it into a binding
/// error.
pub proof fn lemma_no_match_means_no_pairing(
    batch: Seq<OperationEntry>,
    self_index: int,
    protocol_id: ResourceId,
    pool_key: ResourceId,
    borrower_key: ResourceId,
    vault_key: ResourceId,
)
    requires
        forall|j: int|
            self_index < j < forward_scan_end(batch.len() as int, self_index)
                ==> !(is_repay_candidate(#[trigger] batch[j], protocol_id)
                    && repay_resources_match(batch[j], pool_key, borrower_key, vault_key)),
    ensures
        repay_search(
            batch,
            self_index,
            self_index + 1,
            protocol_id,
            pool_key,
            borrower_key,
            vault_key,
        ) is Err,
{
    lemma_repay_search_err_without_match_from(
        batch,
        self_index,
        self_index + 1,
        protocol_id,
        pool_key,
        borrower_key,
        vault_key,
    );
}

proof fn lemma_borrow_search_no_candidate_from(
    batch: Seq<OperationEntry>,
    self_index: int,
    i: int,
    protocol_id: ResourceId,
)
    requires
        forall|j: int|
            backward_scan_start(self_index) <= j <= i && j < self_index
                ==> !is_borrow_candidate(#[trigger] batch[j], protocol_id),
    ensures
        borrow_search(batch, self_index, i, protocol_id) == Err::<u64, ProtocolError>(
            ProtocolError::MissingBorrowIx,
        ),
    decreases i + 1,
{
    if i < backward_scan_start(self_index) || i >= self_index {
    } else {
        lemma_borrow_search_no_candidate_from(batch, self_index, i - 1, protocol_id);
    }
}

/// A window with no borrow candidate at all makes the backward scan fail
/// with `MissingBorrowIx`.
pub proof fn lemma_no_borrow_candidate_means_missing(
    batch: Seq<OperationEntry>,
    self_index: int,
    protocol_id: ResourceId,
)
    requires
        forall|j: int|
            backward_scan_start(self_index) <= j < self_index
                ==> !is_borrow_candidate(#[trigger] batch[j], protocol_id),
    ensures
        borrow_search(batch, self_index, self_index - 1, protocol_id) == Err::<
            u64,
            ProtocolError,
        >(ProtocolError::MissingBorrowIx),
{
    lemma_borrow_search_no_candidate_from(batch, self_index, self_index - 1, protocol_id);
}

proof fn lemma_borrow_search_first_candidate_from(
    batch: Seq<OperationEntry>,
    self_index: int,
    i: int,
    k: int,
    protocol_id: ResourceId,
)
    requires
        backward_scan_start(self_index) <= k <= i < self_index,
        is_borrow_candidate(batch[k], protocol_id),
        forall|j: int| k < j <= i ==> !is_borrow_candidate(#[trigger] batch[j], protocol_id),
    ensures
        borrow_search(batch, self_index, i, protocol_id) == Ok::<u64, ProtocolError>(
            le_u64_value(batch[k].argument_bytes@) as u64,
        ),
    decreases i - k,
{
    if k < i {
        lemma_borrow_search_first_candidate_from(batch, self_index, i - 1, k, protocol_id);
    }
}

/// The backward scan recovers the amount of the nearest preceding borrow
/// candidate in the window.
pub proof fn lemma_first_borrow_candidate_decides(
    batch: Seq<OperationEntry>,
    self_index: int,
    k: int,
    protocol_id: ResourceId,
)
    requires
        backward_scan_start(self_index) <= k < self_index,
        is_borrow_candidate(batch[k], protocol_id),
        forall|j: int| k < j < self_index ==> !is_borrow_candidate(#[trigger] batch[j], protocol_id),
    ensures
        borrow_search(batch, self_index, self_index - 1, protocol_id) == Ok::<
            u64,
            ProtocolError,
        >(le_u64_value(batch[k].argument_bytes@) as u64),
{
    lemma_borrow_search_first_candidate_from(batch, self_index, self_index - 1, k, protocol_id);
}

// ---------------------------------------------------------------------
// Executable inspector.
// ---------------------------------------------------------------------

/// Reads the borrowed amount out of a borrow entry's payload:
/// little-endian, first eight bytes.
fn decode_le_amount(bytes: &Vec<u8>) -> (amount: u64)
    requires
        bytes@.len() >= AMOUNT_BYTES as nat,
    ensures
        amount == le_u64_value(bytes@),
{
    (bytes[0] as u64) + (bytes[1] as u64) * 0x100 + (bytes[2] as u64) * 0x1_0000
        + (bytes[3] as u64) * 0x100_0000 + (bytes[4] as u64) * 0x1_0000_0000
        + (bytes[5] as u64) * 0x100_0000_0000 + (bytes[6] as u64) * 0x1_0000_0000_0000
        + (bytes[7] as u64) * 0x100_0000_0000_0000
}

/// Scans forward from the borrow at `self_index` for the paired repay:
/// the first following entry, within the window, that this protocol
/// issued with the repay tag. That entry must reference the same pool,
/// borrower asset account and pool vault at the fixed positions; any
/// mismatch rejects the batch rather than scanning on, so a decoy repay
/// cannot shadow checking of the real one.
pub fn find_paired_repay(
    batch: &Vec<OperationEntry>,
    self_index: usize,
    protocol_id: ResourceId,
    pool_key: ResourceId,
    borrower_key: ResourceId,
    vault_key: ResourceId,
) -> (r: Result<(), ProtocolError>)
    requires
        self_index < batch@.len(),
    ensures
        r == repay_search(
            batch@,
            self_index as int,
            self_index as int + 1,
            protocol_id,
            pool_key,
            borrower_key,
            vault_key,
        ),
{
    let ghost full = repay_search(
        batch@,
        self_index as int,
        self_index as int + 1,
        protocol_id,
        pool_key,
        borrower_key,
        vault_key,
    );
    let batch_len = batch.len();
    let mut i: usize = self_index + 1;
    while i < batch_len && i - self_index <= SCAN_WINDOW
        invariant
            batch_len == batch@.len(),
            self_index < i,
            i <= batch@.len(),
            i - self_index <= SCAN_WINDOW as int + 1,
            full == repay_search(
                batch@,
                self_index as int,
                self_index as int + 1,
                protocol_id,
                pool_key,
                borrower_key,
                vault_key,
            ),
            full == repay_search(
                batch@,
                self_index as int,
                i as int,
                protocol_id,
                pool_key,
                borrower_key,
                vault_key,
            ),
        decreases batch@.len() - i,
    {
        let entry = &batch[i];
        if entry.issuing_protocol_id == protocol_id
            && entry.operation_tag == OperationTag::Repay
        {
            proof {
                assert(is_repay_candidate(batch@[i as int], protocol_id));
                assert(full == repay_candidate_verdict(
                    batch@[i as int],
                    pool_key,
                    borrower_key,
                    vault_key,
                ));
            }
            if entry.referenced_resources.len() < MIN_REPAY_RESOURCES {
                return Err(ProtocolError::InvalidIx);
            }
            if entry.referenced_resources[POOL_RESOURCE_POSITION] != pool_key {
                return Err(ProtocolError::InvalidPool);
            }
            if entry.referenced_resources[BORROWER_RESOURCE_POSITION] != borrower_key {
                return Err(ProtocolError::InvalidBorrowerAta);
            }
            if entry.referenced_resources[VAULT_RESOURCE_POSITION] != vault_key {
                return Err(ProtocolError::InvalidPoolAta);
            }
            return Ok(());
        }
        proof {
            assert(!is_repay_candidate(batch@[i as int], protocol_id));
        }
        i = i + 1;
    }
    Err(ProtocolError::MissingRepayIx)
}

/// Scans backward from the repay at `self_index` for the paired borrow:
/// the first preceding entry, within the window, that this protocol
/// issued with the borrow tag and a payload long enough to carry the
/// amount. Returns the amount that borrow took, so that a repayer can
/// never choose to repay less than was borrowed.
pub fn find_paired_borrow(
    batch: &Vec<OperationEntry>,
    self_index: usize,
    protocol_id: ResourceId,
) -> (r: Result<u64, ProtocolError>)
    requires
        self_index < batch@.len(),
    ensures
        r == borrow_search(batch@, self_index as int, self_index as int - 1, protocol_id),
{
    let ghost full = borrow_search(
        batch@,
        self_index as int,
        self_index as int - 1,
        protocol_id,
    );
    let mut offset: usize = 1;
    while offset <= SCAN_WINDOW && offset <= self_index
        invariant
            self_index < batch@.len(),
            1 <= offset,
            offset <= SCAN_WINDOW as int + 1,
            full == borrow_search(
                batch@,
                self_index as int,
                self_index as int - 1,
                protocol_id,
            ),
            full == borrow_search(
                batch@,
                self_index as int,
                self_index as int - offset,
                protocol_id,
            ),
        decreases SCAN_WINDOW as int + 1 - offset,
    {
        let i = self_index - offset;
        let entry = &batch[i];
        if entry.issuing_protocol_id == protocol_id
            && entry.operation_tag == OperationTag::Borrow
            && entry.argument_bytes.len() >= AMOUNT_BYTES
        {
            proof {
                assert(is_borrow_candidate(batch@[i as int], protocol_id));
                assert(full == Ok::<u64, ProtocolError>(
                    le_u64_value(batch@[i as int].argument_bytes@) as u64,
                ));
            }
            let amount = decode_le_amount(&entry.argument_bytes);
            return Ok(amount);
        }
        proof {
            assert(!is_borrow_candidate(batch@[i as int], protocol_id));
        }
        offset = offset + 1;
    }
    proof {
        assert(self_index as int - offset < backward_scan_start(self_index as int));
    }
    Err(ProtocolError::MissingBorrowIx)
}

} // verus!
