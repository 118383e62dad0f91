use vstd::prelude::*;

verus! {

/// An opaque 256-bit resource handle (an account address), held as four
/// 64-bit words so that equality in contracts is plain field equality.
#[derive(Clone, Copy, Debug, PartialEq, Eq, Structural)]
pub struct ResourceId(pub u64, pub u64, pub u64, pub u64);

/// The logical operation a batch entry performs, as decoded from the
/// entry's leading discriminator by the environment.
#[derive(Clone, Copy, Debug, PartialEq, Eq, Structural)]
pub enum OperationTag {
    /// The entry takes a flash loan out of a pool.
    Borrow,
    /// The entry pays a flash loan back into a pool.
    Repay,
    /// Any other operation, of this protocol or of another one.
    Other,
}

/// One entry of the atomic batch: a read-only view of an operation,
/// supplied by the environment for the whole current atomic unit.
#[derive(Debug)]
pub struct OperationEntry {
    /// Identity of the protocol that issued the entry.
    pub issuing_protocol_id: ResourceId,
    /// Which operation the entry performs.
    pub operation_tag: OperationTag,
    /// Opaque payload after the discriminator; for a borrow, its first
    /// eight bytes encode the borrowed amount, little endian.
    pub argument_bytes: Vec<u8>,
    /// The resource handles the operation touches, in the order the
    /// issuing protocol declared them.
    pub referenced_resources: Vec<ResourceId>,
}

/// How far past (or before) the current entry the inspector scans for a
/// counterpart, bounding the worst-case cost of the check.
pub const SCAN_WINDOW: usize = 10;

/// A well-formed repay entry references at least this many resources.
pub const MIN_REPAY_RESOURCES: usize = 6;

/// Position of the pool account in a repay entry's resource list.
pub const POOL_RESOURCE_POSITION: usize = 1;

/// Position of the borrower's asset account in a repay entry's resource list.
pub const BORROWER_RESOURCE_POSITION: usize = 3;

/// Position of the pool vault account in a repay entry's resource list.
pub const VAULT_RESOURCE_POSITION: usize = 4;

/// Number of payload bytes that encode a borrow entry's amount.
pub const AMOUNT_BYTES: usize = 8;

} // verus!
