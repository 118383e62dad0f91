use flash_loan::batch::{OperationEntry, OperationTag, ResourceId};
use flash_loan::errors::ProtocolError;
use flash_loan::inspector::{find_paired_borrow, find_paired_repay};

fn rid(n: u64) -> ResourceId {
    ResourceId(n, 0, 0, n)
}

fn protocol() -> ResourceId {
    rid(7)
}

fn filler() -> OperationEntry {
    OperationEntry {
        issuing_protocol_id: rid(99),
        operation_tag: OperationTag::Other,
        argument_bytes: vec![],
        referenced_resources: vec![],
    }
}

fn repay_entry(
    issuer: ResourceId,
    pool: ResourceId,
    borrower: ResourceId,
    vault: ResourceId,
) -> OperationEntry {
    OperationEntry {
        issuing_protocol_id: issuer,
        operation_tag: OperationTag::Repay,
        argument_bytes: vec![],
        // Fixed binding positions: pool at 1, borrower at 3, vault at 4.
        referenced_resources: vec![rid(900), pool, rid(901), borrower, vault, rid(902)],
    }
}

fn borrow_entry(issuer: ResourceId, amount: u64) -> OperationEntry {
    OperationEntry {
        issuing_protocol_id: issuer,
        operation_tag: OperationTag::Borrow,
        argument_bytes: amount.to_le_bytes().to_vec(),
        referenced_resources: vec![],
    }
}

#[test]
fn repay_right_after_borrow_is_found() {
    let batch = vec![filler(), repay_entry(protocol(), rid(1), rid(2), rid(3))];
    assert_eq!(
        find_paired_repay(&batch, 0, protocol(), rid(1), rid(2), rid(3)),
        Ok(())
    );
}

#[test]
fn repay_later_in_the_window_is_found_past_foreign_entries() {
    let foreign_repay = repay_entry(rid(50), rid(1), rid(2), rid(3));
    let batch = vec![
        filler(),
        filler(),
        foreign_repay,
        repay_entry(protocol(), rid(1), rid(2), rid(3)),
    ];
    assert_eq!(
        find_paired_repay(&batch, 0, protocol(), rid(1), rid(2), rid(3)),
        Ok(())
    );
}

#[test]
fn batch_without_repay_fails_with_missing_repay() {
    let batch = vec![filler(), filler(), borrow_entry(protocol(), 5)];
    assert_eq!(
        find_paired_repay(&batch, 0, protocol(), rid(1), rid(2), rid(3)),
        Err(ProtocolError::MissingRepayIx)
    );
}

#[test]
fn repay_past_the_scan_window_is_not_found() {
    let mut batch = vec![filler()];
    for _ in 0..10 {
        batch.push(filler());
    }
    batch.push(repay_entry(protocol(), rid(1), rid(2), rid(3)));
    // The repay sits eleven entries after the borrow; the window is ten.
    assert_eq!(
        find_paired_repay(&batch, 0, protocol(), rid(1), rid(2), rid(3)),
        Err(ProtocolError::MissingRepayIx)
    );
}

#[test]
fn repay_at_the_edge_of_the_scan_window_is_found() {
    let mut batch = vec![filler()];
    for _ in 0..9 {
        batch.push(filler());
    }
    batch.push(repay_entry(protocol(), rid(1), rid(2), rid(3)));
    // The repay sits exactly ten entries after the borrow.
    assert_eq!(
        find_paired_repay(&batch, 0, protocol(), rid(1), rid(2), rid(3)),
        Ok(())
    );
}

#[test]
fn borrow_at_the_edge_of_the_scan_window_is_found() {
    let mut batch = vec![borrow_entry(protocol(), 888)];
    for _ in 0..10 {
        batch.push(filler());
    }
    // The borrow sits exactly ten entries before the repay.
    assert_eq!(find_paired_borrow(&batch, 10, protocol()), Ok(888));
}

#[test]
fn repay_bound_to_another_pool_is_rejected() {
    let batch = vec![filler(), repay_entry(protocol(), rid(66), rid(2), rid(3))];
    assert_eq!(
        find_paired_repay(&batch, 0, protocol(), rid(1), rid(2), rid(3)),
        Err(ProtocolError::InvalidPool)
    );
}

#[test]
fn repay_bound_to_another_borrower_account_is_rejected() {
    let batch = vec![filler(), repay_entry(protocol(), rid(1), rid(66), rid(3))];
    assert_eq!(
        find_paired_repay(&batch, 0, protocol(), rid(1), rid(2), rid(3)),
        Err(ProtocolError::InvalidBorrowerAta)
    );
}

#[test]
fn repay_bound_to_another_vault_is_rejected() {
    let batch = vec![filler(), repay_entry(protocol(), rid(1), rid(2), rid(66))];
    assert_eq!(
        find_paired_repay(&batch, 0, protocol(), rid(1), rid(2), rid(66 + 1)),
        Err(ProtocolError::InvalidPoolAta)
    );
}

#[test]
fn repay_with_too_few_resources_is_rejected() {
    let mut short = repay_entry(protocol(), rid(1), rid(2), rid(3));
    short.referenced_resources.truncate(5);
    let batch = vec![filler(), short];
    assert_eq!(
        find_paired_repay(&batch, 0, protocol(), rid(1), rid(2), rid(3)),
        Err(ProtocolError::InvalidIx)
    );
}

#[test]
fn decoy_repay_shadows_the_real_one() {
    // The scan stops at the first tag match of this protocol: a decoy
    // with wrong bindings fails the batch even when a correct repay
    // follows, so a tampered batch is rejected rather than accepted.
    let decoy = repay_entry(protocol(), rid(66), rid(2), rid(3));
    let real = repay_entry(protocol(), rid(1), rid(2), rid(3));
    let batch = vec![filler(), decoy, real];
    assert_eq!(
        find_paired_repay(&batch, 0, protocol(), rid(1), rid(2), rid(3)),
        Err(ProtocolError::InvalidPool)
    );
}

#[test]
fn borrow_right_before_repay_is_found_with_its_amount() {
    let batch = vec![borrow_entry(protocol(), 1_000_000), filler()];
    assert_eq!(find_paired_borrow(&batch, 1, protocol()), Ok(1_000_000));
}

#[test]
fn borrow_amount_is_read_little_endian() {
    let mut entry = borrow_entry(protocol(), 0);
    entry.argument_bytes = vec![0x40, 0x42, 0x0F, 0, 0, 0, 0, 0, 0xFF];
    let batch = vec![entry, filler()];
    // 0x0F4240 little-endian = 1_000_000; the ninth byte is ignored.
    assert_eq!(find_paired_borrow(&batch, 1, protocol()), Ok(1_000_000));
}

#[test]
fn nearest_preceding_borrow_wins() {
    let batch = vec![
        borrow_entry(protocol(), 111),
        filler(),
        borrow_entry(protocol(), 222),
        filler(),
    ];
    assert_eq!(find_paired_borrow(&batch, 3, protocol()), Ok(222));
}

#[test]
fn short_borrow_payload_is_skipped_for_an_earlier_full_one() {
    let mut short = borrow_entry(protocol(), 333);
    short.argument_bytes.truncate(7);
    let batch = vec![borrow_entry(protocol(), 444), short, filler()];
    assert_eq!(find_paired_borrow(&batch, 2, protocol()), Ok(444));
}

#[test]
fn batch_without_borrow_fails_with_missing_borrow() {
    let batch = vec![filler(), repay_entry(protocol(), rid(1), rid(2), rid(3)), filler()];
    assert_eq!(
        find_paired_borrow(&batch, 2, protocol()),
        Err(ProtocolError::MissingBorrowIx)
    );
}

#[test]
fn foreign_borrow_is_not_a_counterpart() {
    let batch = vec![borrow_entry(rid(50), 555), filler()];
    assert_eq!(
        find_paired_borrow(&batch, 1, protocol()),
        Err(ProtocolError::MissingBorrowIx)
    );
}

#[test]
fn borrow_past_the_scan_window_is_not_found() {
    let mut batch = vec![borrow_entry(protocol(), 777)];
    for _ in 0..11 {
        batch.push(filler());
    }
    // The borrow sits eleven entries before the repay; the window is ten.
    assert_eq!(
        find_paired_borrow(&batch, 11, protocol()),
        Err(ProtocolError::MissingBorrowIx)
    );
}
