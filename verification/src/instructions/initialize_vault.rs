//! Creating a vault.

use crate::errors::XNomadError;
use crate::state::Vault;
use vstd::prelude::*;

verus! {

/// The record of a vault's creation.
#[derive(Clone, Copy, Debug, PartialEq, Eq)]
pub struct InitializeVaultEvent {
    pub vault: [u8; 32],
    pub recipient: [u8; 32],
    pub max_unit_price: u64,
    pub min_unit_price: u64,
    pub max_mint_amount: u8,
    pub whitelist_max_mint_amount: u8,
    pub merkle_root: [u8; 32],
    pub start_time: i64,
    pub end_time: i64,
    pub timestamp: i64,
}

/// Whether a vault may be created with these parameters. The whitelist
/// ceiling must be above the public one, the window must start after time
/// zero and before it ends, and the maximum price must not be below the
/// minimum. The checks are made in this order, and the first that fails
/// decides.
pub open spec fn initialize_outcome(
    max_mint_amount: u8,
    whitelist_max_mint_amount: u8,
    max_unit_price: u64,
    min_unit_price: u64,
    start_time: i64,
    end_time: i64,
) -> Result<(), XNomadError> {
    if whitelist_max_mint_amount <= max_mint_amount {
        Err(XNomadError::InvalidMintAmount)
    } else if start_time >= end_time || start_time <= 0 {
        Err(XNomadError::InvalidTimeConfig)
    } else if max_unit_price < min_unit_price {
        Err(XNomadError::InvalidPriceConfig)
    } else {
        Ok(())
    }
}

/// Creates the vault at `vault_key` for `payer`, who becomes its owner. The
/// new vault holds the parameters as given and has sold nothing. Parameters
/// that are refused create no vault.
pub fn initialize_vault(
    payer: [u8; 32],
    vault_key: [u8; 32],
    recipient: [u8; 32],
    max_mint_amount: u8,
    whitelist_max_mint_amount: u8,
    max_unit_price: u64,
    min_unit_price: u64,
    start_time: i64,
    end_time: i64,
    merkle_root: [u8; 32],
    now: i64,
) -> (result: Result<(Vault, InitializeVaultEvent), XNomadError>)
    ensures
        match initialize_outcome(
            max_mint_amount,
            whitelist_max_mint_amount,
            max_unit_price,
            min_unit_price,
            start_time,
            end_time,
        ) {
            Err(e) => result == Err::<(Vault, InitializeVaultEvent), XNomadError>(e),
            Ok(_) => result == Ok::<(Vault, InitializeVaultEvent), XNomadError>(
                (
                    (Vault {
                        total_deposited: 0,
                        total_nfts: 0,
                        recipient,
                        max_mint_amount,
                        whitelist_max_mint_amount,
                        max_unit_price,
                        min_unit_price,
                        start_time,
                        end_time,
                        owner: payer,
                        merkle_root,
                    }),
                    (InitializeVaultEvent {
                        vault: vault_key,
                        recipient,
                        max_unit_price,
                        min_unit_price,
                        max_mint_amount,
                        whitelist_max_mint_amount,
                        merkle_root,
                        start_time,
                        end_time,
                        timestamp: now,
                    }),
                ),
            ),
        },
        result matches Ok(created) ==> {
            &&& created.0.wf()
            &&& created.0.whitelist_max_mint_amount > created.0.max_mint_amount
            &&& created.0.min_unit_price <= created.0.max_unit_price
        },
{
    if whitelist_max_mint_amount <= max_mint_amount {
        return Err(XNomadError::InvalidMintAmount);
    }
    if !(start_time < end_time && start_time > 0) {
        return Err(XNomadError::InvalidTimeConfig);
    }
    if !(max_unit_price >= min_unit_price) {
        return Err(XNomadError::InvalidPriceConfig);
    }
    let vault = Vault {
        total_deposited: 0,
        total_nfts: 0,
        recipient,
        max_mint_amount,
        whitelist_max_mint_amount,
        max_unit_price,
        min_unit_price,
        start_time,
        end_time,
        owner: payer,
        merkle_root,
    };
    let event = InitializeVaultEvent {
        vault: vault_key,
        recipient,
        max_unit_price,
        min_unit_price,
        max_mint_amount,
        whitelist_max_mint_amount,
        merkle_root,
        start_time,
        end_time,
        timestamp: now,
    };
    Ok((vault, event))
}

} // verus!
