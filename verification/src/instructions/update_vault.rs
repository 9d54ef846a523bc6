//! Changing a vault's parameters.

use crate::errors::XNomadError;
use crate::state::Vault;
use crate::utils::hash_eq;
use vstd::prelude::*;

verus! {

/// The record of a change to a vault: the fields that were supplied, each
/// with its new value.
#[derive(Clone, Copy, Debug, PartialEq, Eq)]
pub struct UpdateVaultEvent {
    pub vault: [u8; 32],
    pub recipient: Option<[u8; 32]>,
    pub max_unit_price: Option<u64>,
    pub min_unit_price: Option<u64>,
    pub max_mint_amount: Option<u8>,
    pub whitelist_max_mint_amount: Option<u8>,
    pub merkle_root: Option<[u8; 32]>,
    pub start_time: Option<i64>,
    pub end_time: Option<i64>,
    pub timestamp: i64,
}

/// The value of a field after an update: the one supplied, or else the
/// current one.
pub open spec fn merged<T>(supplied: Option<T>, current: T) -> T {
    match supplied {
        Some(value) => value,
        None => current,
    }
}

impl Vault {
    /// The vault with each supplied field in place of the current one. The
    /// owner and the running totals are not among them.
    pub open spec fn updated(
        self,
        recipient: Option<[u8; 32]>,
        max_mint_amount: Option<u8>,
        whitelist_max_mint_amount: Option<u8>,
        max_unit_price: Option<u64>,
        min_unit_price: Option<u64>,
        start_time: Option<i64>,
        end_time: Option<i64>,
        merkle_root: Option<[u8; 32]>,
    ) -> Vault {
        Vault {
            recipient: merged(recipient, self.recipient),
            max_mint_amount: merged(max_mint_amount, self.max_mint_amount),
            whitelist_max_mint_amount: merged(
                whitelist_max_mint_amount,
                self.whitelist_max_mint_amount,
            ),
            max_unit_price: merged(max_unit_price, self.max_unit_price),
            min_unit_price: merged(min_unit_price, self.min_unit_price),
            start_time: merged(start_time, self.start_time),
            end_time: merged(end_time, self.end_time),
            merkle_root: merged(merkle_root, self.merkle_root),
            ..self
        }
    }
}

/// Whether `caller` may make this update. Only the owner may. Where a price
/// bound is supplied, the price range that results must not be empty; where
/// an end of the window is supplied, the window that results must start
/// after time zero and before it ends. The checks are made in this order,
/// and the first that fails decides.
pub open spec fn update_outcome(
    vault: Vault,
    caller: Seq<u8>,
    max_unit_price: Option<u64>,
    min_unit_price: Option<u64>,
    start_time: Option<i64>,
    end_time: Option<i64>,
) -> Result<(), XNomadError> {
    let max_price = merged(max_unit_price, vault.max_unit_price);
    let min_price = merged(min_unit_price, vault.min_unit_price);
    let start = merged(start_time, vault.start_time);
    let end = merged(end_time, vault.end_time);
    if caller != vault.owner@ {
        Err(XNomadError::UnauthorizedOwner)
    } else if (max_unit_price is Some || min_unit_price is Some) && max_price < min_price {
        Err(XNomadError::InvalidPriceConfig)
    } else if (start_time is Some || end_time is Some) && (start >= end || start <= 0) {
        Err(XNomadError::InvalidTimeConfig)
    } else {
        Ok(())
    }
}

/// Applies the supplied fields to `vault` on behalf of `caller`. An update
/// that is refused leaves the vault as it was. One that is accepted changes
/// the supplied fields and no others, keeps a well-formed vault well formed,
/// and returns the record of the change.
pub fn update_vault(
    vault: &mut Vault,
    caller: &[u8; 32],
    vault_key: &[u8; 32],
    recipient: Option<[u8; 32]>,
    max_mint_amount: Option<u8>,
    whitelist_max_mint_amount: Option<u8>,
    max_unit_price: Option<u64>,
    min_unit_price: Option<u64>,
    start_time: Option<i64>,
    end_time: Option<i64>,
    merkle_root: Option<[u8; 32]>,
    now: i64,
) -> (result: Result<UpdateVaultEvent, XNomadError>)
    ensures
        match update_outcome(
            *old(vault),
            caller@,
            max_unit_price,
            min_unit_price,
            start_time,
            end_time,
        ) {
            Err(e) => {
                &&& result == Err::<UpdateVaultEvent, XNomadError>(e)
                &&& *final(vault) == *old(vault)
            },
            Ok(_) => {
                &&& result == Ok::<UpdateVaultEvent, XNomadError>(
                    (UpdateVaultEvent {
                        vault: *vault_key,
                        recipient,
                        max_unit_price,
                        min_unit_price,
                        max_mint_amount,
                        whitelist_max_mint_amount,
                        merkle_root,
                        start_time,
                        end_time,
                        timestamp: now,
                    }),
                )
                &&& *final(vault) == old(vault).updated(
                    recipient,
                    max_mint_amount,
                    whitelist_max_mint_amount,
                    max_unit_price,
                    min_unit_price,
                    start_time,
                    end_time,
                    merkle_root,
                )
            },
        },
        old(vault).wf() ==> final(vault).wf(),
{
    if !hash_eq(caller, &vault.owner) {
        return Err(XNomadError::UnauthorizedOwner);
    }
    let new_max_price: u64 = match max_unit_price {
        Some(price) => price,
        None => vault.max_unit_price,
    };
    let new_min_price: u64 = match min_unit_price {
        Some(price) => price,
        None => vault.min_unit_price,
    };
    if (max_unit_price.is_some() || min_unit_price.is_some()) && new_max_price < new_min_price {
        return Err(XNomadError::InvalidPriceConfig);
    }
    let new_start: i64 = match start_time {
        Some(time) => time,
        None => vault.start_time,
    };
    let new_end: i64 = match end_time {
        Some(time) => time,
        None => vault.end_time,
    };
    if (start_time.is_some() || end_time.is_some()) && !(new_start < new_end && new_start > 0) {
        return Err(XNomadError::InvalidTimeConfig);
    }
    if let Some(new_recipient) = recipient {
        vault.recipient = new_recipient;
    }
    if let Some(new_max) = max_mint_amount {
        vault.max_mint_amount = new_max;
    }
    if let Some(new_whitelist_max) = whitelist_max_mint_amount {
        vault.whitelist_max_mint_amount = new_whitelist_max;
    }
    vault.max_unit_price = new_max_price;
    vault.min_unit_price = new_min_price;
    vault.start_time = new_start;
    vault.end_time = new_end;
    if let Some(new_root) = merkle_root {
        vault.merkle_root = new_root;
    }
    Ok(
        UpdateVaultEvent {
            vault: *vault_key,
            recipient,
            max_unit_price,
            min_unit_price,
            max_mint_amount,
            whitelist_max_mint_amount,
            merkle_root,
            start_time,
            end_time,
            timestamp: now,
        },
    )
}

} // verus!
