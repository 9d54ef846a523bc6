//! Raising the unit price of an earlier deposit.
//!
//! As with a deposit, the host makes the payment: it asks `increment_due`
//! what is owed, transfers it, and hands the outcome to `increment_deposit`.

use crate::errors::XNomadError;
use crate::instructions::deposit::Payment;
use crate::state::{lemma_totals_update, DepositInfo, Ledger, UserDeposit, Vault};
use crate::utils::hash_eq;
use vstd::arithmetic::div_mod::{lemma_div_multiples_vanish, lemma_fundamental_div_mod};
use vstd::arithmetic::mul::lemma_mul_inequality;
use vstd::prelude::*;

verus! {

/// The record of one accepted price escalation.
#[derive(Clone, Copy, Debug, PartialEq, Eq)]
pub struct IncrementDepositEvent {
    pub user: [u8; 32],
    pub vault: [u8; 32],
    pub deposit_index: u8,
    pub original_deposit_amount: u64,
    pub new_deposit_amount: u64,
    pub increment_amount: u64,
    pub timestamp: i64,
}

/// What `entry` is worth at `unit_price` a unit.
pub open spec fn escalated_amount(entry: DepositInfo, unit_price: u64) -> int {
    entry.nft_amount * unit_price
}

/// The request names the vault's recipient, falls inside the window, and
/// names an entry that the ledger holds: it gets as far as the check of its
/// price.
pub open spec fn reaches_price_check(
    vault: Vault,
    ledger: Ledger,
    recipient: Seq<u8>,
    deposit_index: u8,
    now: i64,
) -> bool {
    &&& recipient == vault.recipient@
    &&& vault.start_time <= now <= vault.end_time
    &&& deposit_index < ledger.deposits.len()
}

/// Whether an escalation request is accepted, and what is then owed: the
/// difference between the entry's new worth and what was paid for it. Like a
/// deposit, an escalation is accepted only inside the window. The checks
/// are made in this order, and the first that fails decides.
pub open spec fn increment_outcome(
    vault: Vault,
    ledger: Ledger,
    recipient: Seq<u8>,
    deposit_index: u8,
    new_unit_price: u64,
    now: i64,
    balance: u64,
) -> Result<u64, XNomadError> {
    if recipient != vault.recipient@ {
        Err(XNomadError::InvalidRecipient)
    } else if now < vault.start_time {
        Err(XNomadError::NotStarted)
    } else if now > vault.end_time {
        Err(XNomadError::Ended)
    } else if deposit_index >= ledger.deposits.len() {
        Err(XNomadError::InvalidDepositIndex)
    } else {
        let entry = ledger.deposits[deposit_index as int];
        if new_unit_price <= entry.unit_price() {
            Err(XNomadError::InvalidIncrementPrice)
        } else if new_unit_price < vault.min_unit_price || new_unit_price > vault.max_unit_price {
            Err(XNomadError::InvalidUnitPrice)
        } else if balance < escalated_amount(entry, new_unit_price) - entry.deposit_amount {
            Err(XNomadError::InsufficientFunds)
        } else {
            Ok((escalated_amount(entry, new_unit_price) - entry.deposit_amount) as u64)
        }
    }
}

impl Vault {
    /// The vault after a further `paid` came in for units already sold.
    pub open spec fn after_increment(self, paid: u64) -> Vault {
        Vault { total_deposited: (self.total_deposited + paid) as u64, ..self }
    }
}

impl Ledger {
    /// The ledger after a further `paid` was added to the entry at `index`.
    /// No other entry changes, and none moves.
    pub open spec fn after_increment(self, index: int, paid: u64) -> Ledger {
        Ledger {
            total_deposit_amount: (self.total_deposit_amount + paid) as u64,
            deposits: self.deposits.update(
                index,
                (DepositInfo {
                    deposit_amount: (self.deposits[index].deposit_amount + paid) as u64,
                    ..self.deposits[index]
                }),
            ),
            ..self
        }
    }
}

/// The entry's new worth and the running totals stay within 64 bits when
/// the entry at `deposit_index` is raised to `new_unit_price`.
pub open spec fn increment_has_room(
    vault: Vault,
    ledger: Ledger,
    deposit_index: u8,
    new_unit_price: u64,
) -> bool {
    deposit_index < ledger.deposits.len() ==> {
        let entry = ledger.deposits[deposit_index as int];
        let increment = escalated_amount(entry, new_unit_price) - entry.deposit_amount;
        &&& escalated_amount(entry, new_unit_price) <= u64::MAX
        &&& vault.total_deposited + increment <= u64::MAX
        &&& ledger.total_deposit_amount + increment <= u64::MAX
    }
}

/// Whether the entry's new worth and the running totals stay within 64 bits.
pub fn has_room_for_increment(
    vault: &Vault,
    user_deposit: &UserDeposit,
    deposit_index: u8,
    new_unit_price: u64,
) -> (ok: bool)
    ensures
        ok == increment_has_room(*vault, user_deposit@, deposit_index, new_unit_price),
{
    if deposit_index as usize >= user_deposit.deposits.len() {
        return true;
    }
    let entry = &user_deposit.deposits[deposit_index as usize];
    let limit: u128 = u64::MAX as u128;
    assert(entry.nft_amount * new_unit_price <= 255 * u64::MAX) by (nonlinear_arith)
        requires
            entry.nft_amount <= 255,
            new_unit_price <= u64::MAX,
    ;
    let amount: u128 = entry.nft_amount as u128 * new_unit_price as u128;
    amount <= limit && vault.total_deposited as u128 + amount <= limit
        + entry.deposit_amount as u128 && user_deposit.total_deposit_amount as u128 + amount
        <= limit + entry.deposit_amount as u128
}

/// A unit price above what an entry was paid at makes the entry worth more
/// than was paid for it.
pub proof fn lemma_escalation_increases(entry: DepositInfo, new_unit_price: u64)
    requires
        entry.nft_amount > 0,
        new_unit_price > entry.unit_price(),
    ensures
        escalated_amount(entry, new_unit_price) > entry.deposit_amount,
        escalated_amount(entry, new_unit_price) / (entry.nft_amount as int) == new_unit_price,
{
    let units = entry.nft_amount as int;
    let paid = entry.deposit_amount as int;
    lemma_fundamental_div_mod(paid, units);
    assert(0 <= paid % units < units);
    lemma_mul_inequality(paid / units + 1, new_unit_price as int, units);
    assert(units * (paid / units + 1) == units * (paid / units) + units) by (nonlinear_arith);
    assert((paid / units + 1) * units == units * (paid / units + 1)) by (nonlinear_arith);
    assert((new_unit_price as int) * units == units * new_unit_price) by (nonlinear_arith);
    lemma_div_multiples_vanish(new_unit_price as int, units);
}

/// A price at or below what the entry was paid at is never accepted, and a
/// request that gets as far as its price is refused on that account.
pub proof fn lemma_low_price_refused(
    vault: Vault,
    ledger: Ledger,
    recipient: Seq<u8>,
    deposit_index: u8,
    new_unit_price: u64,
    now: i64,
    balance: u64,
)
    requires
        deposit_index < ledger.deposits.len(),
        new_unit_price <= ledger.deposits[deposit_index as int].unit_price(),
    ensures
        increment_outcome(vault, ledger, recipient, deposit_index, new_unit_price, now, balance)
            is Err,
        reaches_price_check(vault, ledger, recipient, deposit_index, now) ==> increment_outcome(
            vault,
            ledger,
            recipient,
            deposit_index,
            new_unit_price,
            now,
            balance,
        ) == Err::<u64, XNomadError>(XNomadError::InvalidIncrementPrice),
{
}

/// An escalation outside the window is never accepted.
pub proof fn lemma_increment_outside_window_refused(
    vault: Vault,
    ledger: Ledger,
    recipient: Seq<u8>,
    deposit_index: u8,
    new_unit_price: u64,
    now: i64,
    balance: u64,
)
    requires
        now < vault.start_time || now > vault.end_time,
    ensures
        increment_outcome(vault, ledger, recipient, deposit_index, new_unit_price, now, balance)
            is Err,
        recipient == vault.recipient@ ==> increment_outcome(
            vault,
            ledger,
            recipient,
            deposit_index,
            new_unit_price,
            now,
            balance,
        ) == Err::<u64, XNomadError>(
            if now < vault.start_time {
                XNomadError::NotStarted
            } else {
                XNomadError::Ended
            },
        ),
{
}

/// An accepted escalation raises what was paid for its entry, leaves every
/// other entry and the number of entries as they were, and keeps the
/// ledger's totals equal to the sums over its entries, as long as what was
/// paid in all still fits 64 bits.
pub proof fn lemma_increment_keeps_sums(
    vault: Vault,
    ledger: Ledger,
    recipient: Seq<u8>,
    deposit_index: u8,
    new_unit_price: u64,
    now: i64,
    balance: u64,
)
    requires
        ledger.wf(),
        increment_outcome(vault, ledger, recipient, deposit_index, new_unit_price, now, balance)
            is Ok,
        escalated_amount(ledger.deposits[deposit_index as int], new_unit_price) <= u64::MAX,
        ledger.total_deposit_amount + escalated_amount(
            ledger.deposits[deposit_index as int],
            new_unit_price,
        ) - ledger.deposits[deposit_index as int].deposit_amount <= u64::MAX,
    ensures
        ({
            let due = increment_outcome(
                vault,
                ledger,
                recipient,
                deposit_index,
                new_unit_price,
                now,
                balance,
            )->Ok_0;
            let after = ledger.after_increment(deposit_index as int, due);
            &&& after.wf()
            &&& after.deposits.len() == ledger.deposits.len()
            &&& after.deposits[deposit_index as int].deposit_amount
                > ledger.deposits[deposit_index as int].deposit_amount
            &&& forall|i: int|
                0 <= i < ledger.deposits.len() && i != deposit_index ==> after.deposits[i]
                    == ledger.deposits[i]
        }),
{
    let entry = ledger.deposits[deposit_index as int];
    lemma_escalation_increases(entry, new_unit_price);
    let due = (escalated_amount(entry, new_unit_price) - entry.deposit_amount) as u64;
    let raised = DepositInfo { deposit_amount: (entry.deposit_amount + due) as u64, ..entry };
    lemma_totals_update(ledger.deposits, deposit_index as int, raised);
}

/// Decides an escalation request: what the depositor owes, or why the
/// request is refused.
pub fn increment_due(
    vault: &Vault,
    user_deposit: &UserDeposit,
    recipient: &[u8; 32],
    deposit_index: u8,
    new_unit_price: u64,
    now: i64,
    balance: u64,
) -> (due: Result<u64, XNomadError>)
    requires
        user_deposit@.wf(),
    ensures
        due == increment_outcome(
            *vault,
            user_deposit@,
            recipient@,
            deposit_index,
            new_unit_price,
            now,
            balance,
        ),
{
    if !hash_eq(recipient, &vault.recipient) {
        return Err(XNomadError::InvalidRecipient);
    }
    if now < vault.start_time {
        return Err(XNomadError::NotStarted);
    }
    if now > vault.end_time {
        return Err(XNomadError::Ended);
    }
    if deposit_index as usize >= user_deposit.deposits.len() {
        return Err(XNomadError::InvalidDepositIndex);
    }
    let entry = &user_deposit.deposits[deposit_index as usize];
    let original_unit_price: u64 = entry.deposit_amount / (entry.nft_amount as u64);
    if new_unit_price <= original_unit_price {
        return Err(XNomadError::InvalidIncrementPrice);
    }
    if new_unit_price < vault.min_unit_price || new_unit_price > vault.max_unit_price {
        return Err(XNomadError::InvalidUnitPrice);
    }
    proof {
        lemma_escalation_increases(*entry, new_unit_price);
    }
    assert(entry.nft_amount * new_unit_price <= 255 * u64::MAX) by (nonlinear_arith)
        requires
            entry.nft_amount <= 255,
            new_unit_price <= u64::MAX,
    ;
    let new_deposit_amount: u128 = entry.nft_amount as u128 * new_unit_price as u128;
    let increment_amount: u128 = new_deposit_amount - entry.deposit_amount as u128;
    if (balance as u128) < increment_amount {
        return Err(XNomadError::InsufficientFunds);
    }
    Ok(increment_amount as u64)
}

/// Carries out an escalation request, once the host has tried to transfer
/// what `increment_due` asked for. A request that is refused, or whose
/// payment failed, leaves the vault and the ledger as they were. An accepted
/// one raises what was paid for the entry, and with it the totals of the
/// ledger and of the vault, and returns the record of the change.
pub fn increment_deposit(
    vault: &mut Vault,
    user_deposit: &mut UserDeposit,
    user: &[u8; 32],
    vault_key: &[u8; 32],
    recipient: &[u8; 32],
    deposit_index: u8,
    new_unit_price: u64,
    now: i64,
    balance: u64,
    payment: Payment,
) -> (result: Result<IncrementDepositEvent, XNomadError>)
    requires
        old(user_deposit)@.wf(),
        increment_outcome(
            *old(vault),
            old(user_deposit)@,
            recipient@,
            deposit_index,
            new_unit_price,
            now,
            balance,
        ) is Ok ==> increment_has_room(
            *old(vault),
            old(user_deposit)@,
            deposit_index,
            new_unit_price,
        ),
    ensures
        final(user_deposit)@.wf(),
        result is Err ==> *final(vault) == *old(vault) && final(user_deposit)@ == old(user_deposit)@,
        final(user_deposit)@.deposits.len() == old(user_deposit)@.deposits.len(),
        forall|i: int|
            0 <= i < old(user_deposit)@.deposits.len() && i != deposit_index ==> final(user_deposit)@.deposits[i] == old(user_deposit)@.deposits[i],
        deposit_index < old(user_deposit)@.deposits.len() && new_unit_price <= old(
            user_deposit
        )@.deposits[deposit_index as int].unit_price() ==> result is Err,
        reaches_price_check(
            *old(vault),
            old(user_deposit)@,
            recipient@,
            deposit_index,
            now,
        ) && new_unit_price <= old(user_deposit)@.deposits[deposit_index as int].unit_price()
            ==> result == Err::<IncrementDepositEvent, XNomadError>(
            XNomadError::InvalidIncrementPrice,
        ),
        now < old(vault).start_time || now > old(vault).end_time ==> result is Err,
        match increment_outcome(
            *old(vault),
            old(user_deposit)@,
            recipient@,
            deposit_index,
            new_unit_price,
            now,
            balance,
        ) {
            Err(e) => {
                &&& result == Err::<IncrementDepositEvent, XNomadError>(e)
                &&& *final(vault) == *old(vault)
                &&& final(user_deposit)@ == old(user_deposit)@
            },
            Ok(due) => if payment is Failed {
                &&& result == Err::<IncrementDepositEvent, XNomadError>(XNomadError::PaymentFailed)
                &&& *final(vault) == *old(vault)
                &&& final(user_deposit)@ == old(user_deposit)@
            } else {
                let before = old(user_deposit)@.deposits[deposit_index as int];
                let after = final(user_deposit)@.deposits[deposit_index as int];
                &&& result == Ok::<IncrementDepositEvent, XNomadError>(
                    (IncrementDepositEvent {
                        user: *user,
                        vault: *vault_key,
                        deposit_index,
                        original_deposit_amount: before.deposit_amount,
                        new_deposit_amount: (before.deposit_amount + due) as u64,
                        increment_amount: due,
                        timestamp: now,
                    }),
                )
                &&& *final(vault) == old(vault).after_increment(due)
                &&& final(user_deposit)@ == old(user_deposit)@.after_increment(
                    deposit_index as int,
                    due,
                )
                &&& after.deposit_amount == escalated_amount(before, new_unit_price)
                &&& after.deposit_amount > before.deposit_amount
                &&& after.unit_price() == new_unit_price
                &&& after.unit_price() > before.unit_price()
            },
        },
{
    let increment_amount: u64 = match increment_due(
        vault,
        user_deposit,
        recipient,
        deposit_index,
        new_unit_price,
        now,
        balance,
    ) {
        Ok(due) => due,
        Err(e) => {
            return Err(e);
        },
    };
    match payment {
        Payment::Failed => {
            return Err(XNomadError::PaymentFailed);
        },
        Payment::Completed => {},
    }
    let index: usize = deposit_index as usize;
    let original: DepositInfo = user_deposit.deposits[index];
    proof {
        lemma_escalation_increases(original, new_unit_price);
        assert(increment_amount == escalated_amount(original, new_unit_price)
            - original.deposit_amount);
    }
    let new_deposit_amount: u64 = original.deposit_amount + increment_amount;
    let raised = DepositInfo {
        nft_amount: original.nft_amount,
        deposit_amount: new_deposit_amount,
        timestamp: original.timestamp,
    };
    proof {
        lemma_totals_update(user_deposit.deposits@, index as int, raised);
    }
    user_deposit.deposits.set(index, raised);
    user_deposit.total_deposit_amount = user_deposit.total_deposit_amount + increment_amount;
    vault.total_deposited = vault.total_deposited + increment_amount;
    Ok(
        IncrementDepositEvent {
            user: *user,
            vault: *vault_key,
            deposit_index,
            original_deposit_amount: original.deposit_amount,
            new_deposit_amount,
            increment_amount,
            timestamp: now,
        },
    )
}

} // verus!
