//! Why an operation on a vault or a ledger is refused.

use vstd::prelude::*;

verus! {

#[derive(Clone, Copy, Debug, PartialEq, Eq)]
pub enum XNomadError {
    /// The depositor's units would exceed the ceiling of their class.
    ExceedsMintLimit,
    /// The depositor's balance does not cover the payment.
    InsufficientFunds,
    /// The account named as recipient is not the vault's recipient.
    InvalidRecipient,
    /// The whitelist ceiling is not above the public ceiling.
    InvalidMintAmount,
    /// The deposit window is empty or does not start after time zero.
    InvalidTimeConfig,
    /// The deposit window has not opened yet.
    NotStarted,
    /// The deposit window has closed.
    Ended,
    /// The caller is not the vault's owner.
    UnauthorizedOwner,
    /// The merkle proof does not lead to the vault's root.
    InvalidMerkleProof,
    /// The depositor's ledger holds as many entries as it can.
    ExceedsDepositLimit,
    /// The unit amount is zero or overflows the depositor's total.
    InvalidNftAmount,
    /// The maximum unit price is below the minimum.
    InvalidPriceConfig,
    /// The unit price is outside the vault's price range.
    InvalidUnitPrice,
    /// The ledger has no entry at that index.
    InvalidDepositIndex,
    /// The new unit price is not above the entry's current one.
    InvalidIncrementPrice,
    /// The transfer to the recipient failed.
    PaymentFailed,
}

} // verus!
