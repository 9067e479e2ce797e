//! Why an operation can be refused.

use vstd::prelude::*;

verus! {

/// Why an operation of the minting service was refused.
///
/// Every refusal leaves the state of the service exactly as it was.
#[derive(Clone, Copy, Debug, PartialEq, Eq, Structural)]
pub enum MintError {
    /// The amount paid is not the unit price times the requested quantity.
    PaymentMismatch,
    /// More items were requested than remain in the inventory.
    SupplyExhausted,
    /// The payer has never prepaid for storage.
    NoEscrow,
    /// The private sale is running and the payer holds no whitelist entry.
    NotWhitelisted,
    /// The request would take the payer past the cap of their whitelist entry.
    QuotaExceeded,
    /// The prepaid balance does not cover the storage cost of the batch.
    InsufficientEscrow,
    /// The instruction that came with a payment is not a mint instruction.
    MalformedInstruction,
    /// A mint instruction asked for no item at all.
    ZeroQuantity,
    /// The caller may not perform this operation.
    NotAuthorized,
    /// The account already holds a whitelist entry.
    DuplicateEntry,
    /// The account holds no whitelist entry, or no batch awaits settlement
    /// under the identifier.
    NotFound,
    /// There is nothing to withdraw.
    EmptyBalance,
    /// A settlement would take the inventory below zero.
    Underflow,
    /// The issuing contract reported that the batch failed.
    RemoteBatchFailed,
    /// A counter or a balance cannot hold the sum that the operation would
    /// store, or no identifier is left for another batch.
    Overflow,
}

} // verus!
