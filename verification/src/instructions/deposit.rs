//! Reserving units in a vault against payment at its minimum unit price.
//!
//! The payment itself is made by the host. It first asks `deposit_due` what
//! is owed, transfers that amount from the depositor to the recipient, and
//! hands the outcome of the transfer to `deposit` or `settle_deposit`.

use crate::errors::XNomadError;
use crate::state::{lemma_totals_push, DepositInfo, Ledger, UserDeposit, Vault, MAX_DEPOSITS};
use crate::utils::{hash_eq, hashes_view, leaf_hash, leaf_of, merkle_verifies, verify_proof};
use vstd::prelude::*;

verus! {

/// What a depositor's claim to be on the whitelist came to.
#[derive(Clone, Copy, Debug, PartialEq, Eq)]
pub enum Membership {
    /// No proof was supplied: a public deposit.
    NotClaimed,
    /// The proof supplied leads to the vault's root.
    Verified,
    /// The proof supplied does not lead to the vault's root.
    Rejected,
}

/// How the host's transfer of a payment ended.
#[derive(Clone, Copy, Debug, PartialEq, Eq)]
pub enum Payment {
    Completed,
    Failed,
}

/// The record of one accepted deposit.
#[derive(Clone, Copy, Debug, PartialEq, Eq)]
pub struct DepositEvent {
    pub user: [u8; 32],
    pub vault: [u8; 32],
    pub nft_amount: u8,
    pub deposit_amount: u64,
    pub is_whitelist: bool,
    pub timestamp: i64,
}

/// The membership that `proof` establishes for `user` under `root`.
pub open spec fn membership_of(
    root: Seq<u8>,
    merkle_proof: Option<Seq<Seq<u8>>>,
    user: Seq<u8>,
) -> Membership {
    match merkle_proof {
        None => Membership::NotClaimed,
        Some(siblings) => if merkle_verifies(siblings, root, leaf_of(user)) {
            Membership::Verified
        } else {
            Membership::Rejected
        },
    }
}

/// The siblings that an optional proof holds.
pub open spec fn proof_view(merkle_proof: Option<Vec<[u8; 32]>>) -> Option<Seq<Seq<u8>>> {
    match merkle_proof {
        None => None,
        Some(siblings) => Some(hashes_view(siblings@)),
    }
}

/// The ceiling on a depositor's units: the whitelist's where a proof was
/// supplied, the public one where none was.
pub open spec fn mint_limit(vault: Vault, membership: Membership) -> u8 {
    if membership is NotClaimed {
        vault.max_mint_amount
    } else {
        vault.whitelist_max_mint_amount
    }
}

/// What a deposit of `nft_amount` units costs in `vault`.
pub open spec fn deposit_price(vault: Vault, nft_amount: u8) -> int {
    nft_amount * vault.min_unit_price
}

/// The request names the vault's recipient, falls inside the window, and
/// asks for a number of units that the depositor's total can take: it gets
/// as far as the check of its membership.
pub open spec fn reaches_membership_check(
    vault: Vault,
    ledger: Ledger,
    recipient: Seq<u8>,
    nft_amount: u8,
    now: i64,
) -> bool {
    &&& recipient == vault.recipient@
    &&& vault.start_time <= now <= vault.end_time
    &&& nft_amount > 0
    &&& ledger.total_nft_amount + nft_amount <= u8::MAX
}

/// Whether a deposit request is accepted, and what is then owed. The checks
/// are made in this order, and the first that fails decides.
pub open spec fn deposit_outcome(
    vault: Vault,
    ledger: Ledger,
    recipient: Seq<u8>,
    nft_amount: u8,
    membership: Membership,
    now: i64,
    balance: u64,
) -> Result<u64, XNomadError> {
    if recipient != vault.recipient@ {
        Err(XNomadError::InvalidRecipient)
    } else if now < vault.start_time {
        Err(XNomadError::NotStarted)
    } else if now > vault.end_time {
        Err(XNomadError::Ended)
    } else if nft_amount == 0 || ledger.total_nft_amount + nft_amount > u8::MAX {
        Err(XNomadError::InvalidNftAmount)
    } else if membership is Rejected {
        Err(XNomadError::InvalidMerkleProof)
    } else if ledger.total_nft_amount + nft_amount > mint_limit(vault, membership) {
        Err(XNomadError::ExceedsMintLimit)
    } else if ledger.deposits.len() >= MAX_DEPOSITS {
        Err(XNomadError::ExceedsDepositLimit)
    } else if balance < deposit_price(vault, nft_amount) {
        Err(XNomadError::InsufficientFunds)
    } else {
        Ok(deposit_price(vault, nft_amount) as u64)
    }
}

impl Vault {
    /// The vault after `nft_amount` units were sold for `paid`.
    pub open spec fn after_deposit(self, nft_amount: u8, paid: u64) -> Vault {
        Vault {
            total_deposited: (self.total_deposited + paid) as u64,
            total_nfts: (self.total_nfts + nft_amount) as u64,
            ..self
        }
    }
}

impl Ledger {
    /// The ledger after `entry` was appended for `user` in `vault`. The first
    /// entry binds the ledger to its depositor and its vault.
    pub open spec fn after_deposit(self, user: [u8; 32], vault: [u8; 32], entry: DepositInfo) -> Ledger {
        Ledger {
            user: if self.deposits.len() == 0 { user } else { self.user },
            vault: if self.deposits.len() == 0 { vault } else { self.vault },
            total_nft_amount: (self.total_nft_amount + entry.nft_amount) as u8,
            total_deposit_amount: (self.total_deposit_amount + entry.deposit_amount) as u64,
            deposits: self.deposits.push(entry),
        }
    }
}

/// The running totals of `vault` and `ledger` can take a deposit of
/// `nft_amount` units without leaving 64 bits.
pub open spec fn deposit_has_room(vault: Vault, ledger: Ledger, nft_amount: u8) -> bool {
    &&& vault.total_nfts + nft_amount <= u64::MAX
    &&& deposit_price(vault, nft_amount) <= u64::MAX ==> {
        &&& vault.total_deposited + deposit_price(vault, nft_amount) <= u64::MAX
        &&& ledger.total_deposit_amount + deposit_price(vault, nft_amount) <= u64::MAX
    }
}

/// A request over the ceiling of its class is never accepted, and one that
/// gets as far as the ceiling is refused on its account.
pub proof fn lemma_over_ceiling_refused(
    vault: Vault,
    ledger: Ledger,
    recipient: Seq<u8>,
    nft_amount: u8,
    membership: Membership,
    now: i64,
    balance: u64,
)
    requires
        ledger.total_nft_amount + nft_amount > mint_limit(vault, membership),
    ensures
        deposit_outcome(vault, ledger, recipient, nft_amount, membership, now, balance) is Err,
        !(membership is Rejected) && reaches_membership_check(
            vault,
            ledger,
            recipient,
            nft_amount,
            now,
        ) ==> deposit_outcome(vault, ledger, recipient, nft_amount, membership, now, balance)
            == Err::<u64, XNomadError>(XNomadError::ExceedsMintLimit),
{
}

/// A request whose proof was rejected is never accepted, however much room
/// the depositor has left, and one that gets as far as its membership is
/// refused on that account.
pub proof fn lemma_rejected_proof_refused(
    vault: Vault,
    ledger: Ledger,
    recipient: Seq<u8>,
    nft_amount: u8,
    now: i64,
    balance: u64,
)
    ensures
        deposit_outcome(vault, ledger, recipient, nft_amount, Membership::Rejected, now, balance)
            is Err,
        reaches_membership_check(vault, ledger, recipient, nft_amount, now) ==> deposit_outcome(
            vault,
            ledger,
            recipient,
            nft_amount,
            Membership::Rejected,
            now,
            balance,
        ) == Err::<u64, XNomadError>(XNomadError::InvalidMerkleProof),
{
}

/// A request outside the window is never accepted.
pub proof fn lemma_deposit_outside_window_refused(
    vault: Vault,
    ledger: Ledger,
    recipient: Seq<u8>,
    nft_amount: u8,
    membership: Membership,
    now: i64,
    balance: u64,
)
    requires
        now < vault.start_time || now > vault.end_time,
    ensures
        deposit_outcome(vault, ledger, recipient, nft_amount, membership, now, balance) is Err,
        recipient == vault.recipient@ ==> deposit_outcome(
            vault,
            ledger,
            recipient,
            nft_amount,
            membership,
            now,
            balance,
        ) == Err::<u64, XNomadError>(
            if now < vault.start_time {
                XNomadError::NotStarted
            } else {
                XNomadError::Ended
            },
        ),
{
}

/// An accepted deposit keeps the ledger's totals equal to the sums over its
/// entries, as long as what was paid in all still fits 64 bits.
pub proof fn lemma_deposit_keeps_sums(
    vault: Vault,
    ledger: Ledger,
    user: [u8; 32],
    vault_key: [u8; 32],
    recipient: Seq<u8>,
    nft_amount: u8,
    membership: Membership,
    now: i64,
    balance: u64,
)
    requires
        ledger.wf(),
        deposit_outcome(vault, ledger, recipient, nft_amount, membership, now, balance) is Ok,
        ledger.total_deposit_amount + deposit_price(vault, nft_amount) <= u64::MAX,
    ensures
        ledger.after_deposit(
            user,
            vault_key,
            (DepositInfo {
                nft_amount,
                deposit_amount: deposit_price(vault, nft_amount) as u64,
                timestamp: now,
            }),
        ).wf(),
{
    let entry = DepositInfo {
        nft_amount,
        deposit_amount: deposit_price(vault, nft_amount) as u64,
        timestamp: now,
    };
    lemma_totals_push(ledger.deposits, entry);
}

/// Whether the running totals can take a deposit of `nft_amount` units.
pub fn has_room_for_deposit(vault: &Vault, user_deposit: &UserDeposit, nft_amount: u8) -> (ok: bool)
    ensures
        ok == deposit_has_room(*vault, user_deposit@, nft_amount),
{
    if vault.total_nfts > u64::MAX - nft_amount as u64 {
        return false;
    }
    match (nft_amount as u64).checked_mul(vault.min_unit_price) {
        None => true,
        Some(price) => vault.total_deposited <= u64::MAX - price
            && user_deposit.total_deposit_amount <= u64::MAX - price,
    }
}

/// Verifies the proof, where one was supplied, for `user` under `merkle_root`.
pub fn check_membership(
    merkle_root: &[u8; 32],
    merkle_proof: &Option<Vec<[u8; 32]>>,
    user: &[u8; 32],
) -> (membership: Membership)
    ensures
        membership == membership_of(merkle_root@, proof_view(*merkle_proof), user@),
{
    match merkle_proof {
        None => Membership::NotClaimed,
        Some(proof) => {
            let leaf = leaf_hash(user);
            if verify_proof(proof.as_slice(), *merkle_root, leaf) {
                Membership::Verified
            } else {
                Membership::Rejected
            }
        },
    }
}

/// Decides a deposit request whose membership is known: what the depositor
/// owes, or why the request is refused.
pub fn deposit_due(
    vault: &Vault,
    user_deposit: &UserDeposit,
    recipient: &[u8; 32],
    nft_amount: u8,
    membership: Membership,
    now: i64,
    balance: u64,
) -> (due: Result<u64, XNomadError>)
    ensures
        due == deposit_outcome(*vault, user_deposit@, recipient@, nft_amount, membership, now, balance),
{
    if !hash_eq(recipient, &vault.recipient) {
        return Err(XNomadError::InvalidRecipient);
    }
    if now < vault.start_time {
        return Err(XNomadError::NotStarted);
    }
    if now > vault.end_time {
        return Err(XNomadError::Ended);
    }
    if nft_amount == 0 {
        return Err(XNomadError::InvalidNftAmount);
    }
    let total_nft_amount: u8 = match user_deposit.total_nft_amount.checked_add(nft_amount) {
        Some(total) => total,
        None => {
            return Err(XNomadError::InvalidNftAmount);
        },
    };
    let mint_limit: u8 = match membership {
        Membership::NotClaimed => vault.max_mint_amount,
        Membership::Verified => vault.whitelist_max_mint_amount,
        Membership::Rejected => {
            return Err(XNomadError::InvalidMerkleProof);
        },
    };
    if total_nft_amount > mint_limit {
        return Err(XNomadError::ExceedsMintLimit);
    }
    if user_deposit.deposits.len() >= MAX_DEPOSITS {
        return Err(XNomadError::ExceedsDepositLimit);
    }
    match (nft_amount as u64).checked_mul(vault.min_unit_price) {
        Some(price) => {
            if balance < price {
                Err(XNomadError::InsufficientFunds)
            } else {
                Ok(price)
            }
        },
        None => Err(XNomadError::InsufficientFunds),
    }
}

/// Carries out a deposit request whose membership is known, once the host
/// has tried to transfer what `deposit_due` asked for. A request that is
/// refused, or whose payment failed, leaves the vault and the ledger as they
/// were. An accepted one appends an entry, adds to the totals of both, and
/// returns the record of the deposit.
pub fn settle_deposit(
    vault: &mut Vault,
    user_deposit: &mut UserDeposit,
    user: &[u8; 32],
    vault_key: &[u8; 32],
    recipient: &[u8; 32],
    nft_amount: u8,
    membership: Membership,
    now: i64,
    balance: u64,
    payment: Payment,
) -> (result: Result<DepositEvent, XNomadError>)
    requires
        old(user_deposit)@.wf(),
        deposit_outcome(
            *old(vault),
            old(user_deposit)@,
            recipient@,
            nft_amount,
            membership,
            now,
            balance,
        ) is Ok ==> deposit_has_room(*old(vault), old(user_deposit)@, nft_amount),
    ensures
        final(user_deposit)@.wf(),
        result is Err ==> *final(vault) == *old(vault) && final(user_deposit)@ == old(user_deposit)@,
        old(user_deposit)@.total_nft_amount + nft_amount > mint_limit(*old(vault), membership)
            ==> result is Err,
        !(membership is Rejected) && old(user_deposit)@.total_nft_amount + nft_amount
            > mint_limit(*old(vault), membership) && reaches_membership_check(
            *old(vault),
            old(user_deposit)@,
            recipient@,
            nft_amount,
            now,
        ) ==> result == Err::<DepositEvent, XNomadError>(XNomadError::ExceedsMintLimit),
        membership is Rejected ==> result is Err,
        membership is Rejected && reaches_membership_check(
            *old(vault),
            old(user_deposit)@,
            recipient@,
            nft_amount,
            now,
        ) ==> result == Err::<DepositEvent, XNomadError>(XNomadError::InvalidMerkleProof),
        match deposit_outcome(
            *old(vault),
            old(user_deposit)@,
            recipient@,
            nft_amount,
            membership,
            now,
            balance,
        ) {
            Err(e) => {
                &&& result == Err::<DepositEvent, XNomadError>(e)
                &&& *final(vault) == *old(vault)
                &&& final(user_deposit)@ == old(user_deposit)@
            },
            Ok(due) => if payment is Failed {
                &&& result == Err::<DepositEvent, XNomadError>(XNomadError::PaymentFailed)
                &&& *final(vault) == *old(vault)
                &&& final(user_deposit)@ == old(user_deposit)@
            } else {
                &&& result == Ok::<DepositEvent, XNomadError>(
                    (DepositEvent {
                        user: *user,
                        vault: *vault_key,
                        nft_amount,
                        deposit_amount: due,
                        is_whitelist: membership is Verified,
                        timestamp: now,
                    }),
                )
                &&& *final(vault) == old(vault).after_deposit(nft_amount, due)
                &&& final(user_deposit)@ == old(user_deposit)@.after_deposit(
                    *user,
                    *vault_key,
                    (DepositInfo { nft_amount, deposit_amount: due, timestamp: now }),
                )
            },
        },
{
    let deposit_amount: u64 = match deposit_due(
        vault,
        user_deposit,
        recipient,
        nft_amount,
        membership,
        now,
        balance,
    ) {
        Ok(due) => due,
        Err(e) => {
            return Err(e);
        },
    };
    match payment {
        Payment::Failed => {
            return Err(XNomadError::PaymentFailed);
        },
        Payment::Completed => {},
    }
    let entry = DepositInfo { nft_amount, deposit_amount, timestamp: now };
    proof {
        lemma_totals_push(user_deposit.deposits@, entry);
    }
    if user_deposit.deposits.len() == 0 {
        user_deposit.user = *user;
        user_deposit.vault = *vault_key;
    }
    user_deposit.deposits.push(entry);
    user_deposit.total_nft_amount = user_deposit.total_nft_amount + nft_amount;
    user_deposit.total_deposit_amount = user_deposit.total_deposit_amount + deposit_amount;
    vault.total_deposited = vault.total_deposited + deposit_amount;
    vault.total_nfts = vault.total_nfts + nft_amount as u64;
    Ok(
        DepositEvent {
            user: *user,
            vault: *vault_key,
            nft_amount,
            deposit_amount,
            is_whitelist: matches!(membership, Membership::Verified),
            timestamp: now,
        },
    )
}

/// Carries out a deposit request: verifies the proof, where one was
/// supplied, and settles the request with the membership that came out.
pub fn deposit(
    vault: &mut Vault,
    user_deposit: &mut UserDeposit,
    user: &[u8; 32],
    vault_key: &[u8; 32],
    recipient: &[u8; 32],
    nft_amount: u8,
    merkle_proof: Option<Vec<[u8; 32]>>,
    now: i64,
    balance: u64,
    payment: Payment,
) -> (result: Result<DepositEvent, XNomadError>)
    requires
        old(user_deposit)@.wf(),
        deposit_outcome(
            *old(vault),
            old(user_deposit)@,
            recipient@,
            nft_amount,
            membership_of(old(vault).merkle_root@, proof_view(merkle_proof), user@),
            now,
            balance,
        ) is Ok ==> deposit_has_room(*old(vault), old(user_deposit)@, nft_amount),
    ensures
        final(user_deposit)@.wf(),
        result is Err ==> *final(vault) == *old(vault) && final(user_deposit)@ == old(user_deposit)@,
        ({
            let membership = membership_of(
                old(vault).merkle_root@,
                proof_view(merkle_proof),
                user@,
            );
            &&& old(user_deposit)@.total_nft_amount + nft_amount > mint_limit(
                *old(vault),
                membership,
            ) ==> result is Err
            &&& !(membership is Rejected) && old(user_deposit)@.total_nft_amount + nft_amount
                > mint_limit(*old(vault), membership) && reaches_membership_check(
                *old(vault),
                old(user_deposit)@,
                recipient@,
                nft_amount,
                now,
            ) ==> result == Err::<DepositEvent, XNomadError>(XNomadError::ExceedsMintLimit)
            &&& membership is Rejected ==> result is Err
            &&& membership is Rejected && reaches_membership_check(
                *old(vault),
                old(user_deposit)@,
                recipient@,
                nft_amount,
                now,
            ) ==> result == Err::<DepositEvent, XNomadError>(XNomadError::InvalidMerkleProof)
        }),
        ({
            let membership = membership_of(
                old(vault).merkle_root@,
                proof_view(merkle_proof),
                user@,
            );
            match deposit_outcome(
                *old(vault),
                old(user_deposit)@,
                recipient@,
                nft_amount,
                membership,
                now,
                balance,
            ) {
                Err(e) => {
                    &&& result == Err::<DepositEvent, XNomadError>(e)
                    &&& *final(vault) == *old(vault)
                    &&& final(user_deposit)@ == old(user_deposit)@
                },
                Ok(due) => if payment is Failed {
                    &&& result == Err::<DepositEvent, XNomadError>(XNomadError::PaymentFailed)
                    &&& *final(vault) == *old(vault)
                    &&& final(user_deposit)@ == old(user_deposit)@
                } else {
                    &&& result == Ok::<DepositEvent, XNomadError>(
                        (DepositEvent {
                            user: *user,
                            vault: *vault_key,
                            nft_amount,
                            deposit_amount: due,
                            is_whitelist: membership is Verified,
                            timestamp: now,
                        }),
                    )
                    &&& *final(vault) == old(vault).after_deposit(nft_amount, due)
                    &&& final(user_deposit)@ == old(user_deposit)@.after_deposit(
                        *user,
                        *vault_key,
                        (DepositInfo { nft_amount, deposit_amount: due, timestamp: now }),
                    )
                },
            }
        }),
{
    let membership = check_membership(&vault.merkle_root, &merkle_proof, user);
    settle_deposit(
        vault,
        user_deposit,
        user,
        vault_key,
        recipient,
        nft_amount,
        membership,
        now,
        balance,
        payment,
    )
}

} // verus!
