use xnomad_launch::errors::XNomadError;
use xnomad_launch::instructions::initialize_vault::{initialize_vault, InitializeVaultEvent};
use xnomad_launch::instructions::update_vault::{update_vault, UpdateVaultEvent};
use xnomad_launch::state::Vault;

const OWNER: [u8; 32] = [1u8; 32];
const VAULT_KEY: [u8; 32] = [2u8; 32];
const RECIPIENT: [u8; 32] = [3u8; 32];
const ROOT: [u8; 32] = [4u8; 32];
const STRANGER: [u8; 32] = [9u8; 32];

fn sample_vault() -> Vault {
    let (vault, _) =
        initialize_vault(OWNER, VAULT_KEY, RECIPIENT, 5, 10, 500, 100, 1_000, 2_000, ROOT, 900)
            .unwrap();
    vault
}

#[test]
fn initialize_vault_stores_the_parameters_with_zero_totals() {
    let (vault, event) =
        initialize_vault(OWNER, VAULT_KEY, RECIPIENT, 5, 10, 500, 100, 1_000, 2_000, ROOT, 900)
            .unwrap();
    assert_eq!(
        vault,
        Vault {
            total_deposited: 0,
            total_nfts: 0,
            recipient: RECIPIENT,
            max_mint_amount: 5,
            whitelist_max_mint_amount: 10,
            max_unit_price: 500,
            min_unit_price: 100,
            start_time: 1_000,
            end_time: 2_000,
            owner: OWNER,
            merkle_root: ROOT,
        }
    );
    assert_eq!(
        event,
        InitializeVaultEvent {
            vault: VAULT_KEY,
            recipient: RECIPIENT,
            max_unit_price: 500,
            min_unit_price: 100,
            max_mint_amount: 5,
            whitelist_max_mint_amount: 10,
            merkle_root: ROOT,
            start_time: 1_000,
            end_time: 2_000,
            timestamp: 900,
        }
    );
    assert!(vault.is_wf());
    assert!(vault.whitelist_max_mint_amount > vault.max_mint_amount);
    assert!(vault.min_unit_price <= vault.max_unit_price);
}

#[test]
fn initialize_vault_accepts_equal_price_bounds() {
    let (vault, _) =
        initialize_vault(OWNER, VAULT_KEY, RECIPIENT, 0, 1, 100, 100, 1, 2, ROOT, 0).unwrap();
    assert_eq!(vault.min_unit_price, 100);
    assert_eq!(vault.max_unit_price, 100);
}

#[test]
fn initialize_vault_refuses_a_whitelist_ceiling_not_above_the_public_one() {
    let equal = initialize_vault(OWNER, VAULT_KEY, RECIPIENT, 5, 5, 500, 100, 1_000, 2_000, ROOT, 0);
    assert_eq!(equal, Err(XNomadError::InvalidMintAmount));
    let below = initialize_vault(OWNER, VAULT_KEY, RECIPIENT, 5, 4, 500, 100, 1_000, 2_000, ROOT, 0);
    assert_eq!(below, Err(XNomadError::InvalidMintAmount));
}

#[test]
fn initialize_vault_refuses_a_bad_window() {
    let empty = initialize_vault(OWNER, VAULT_KEY, RECIPIENT, 5, 10, 500, 100, 2_000, 2_000, ROOT, 0);
    assert_eq!(empty, Err(XNomadError::InvalidTimeConfig));
    let reversed =
        initialize_vault(OWNER, VAULT_KEY, RECIPIENT, 5, 10, 500, 100, 3_000, 2_000, ROOT, 0);
    assert_eq!(reversed, Err(XNomadError::InvalidTimeConfig));
    let at_zero = initialize_vault(OWNER, VAULT_KEY, RECIPIENT, 5, 10, 500, 100, 0, 2_000, ROOT, 0);
    assert_eq!(at_zero, Err(XNomadError::InvalidTimeConfig));
    let negative = initialize_vault(OWNER, VAULT_KEY, RECIPIENT, 5, 10, 500, 100, -5, 2_000, ROOT, 0);
    assert_eq!(negative, Err(XNomadError::InvalidTimeConfig));
}

#[test]
fn initialize_vault_refuses_a_maximum_price_below_the_minimum() {
    let result = initialize_vault(OWNER, VAULT_KEY, RECIPIENT, 5, 10, 99, 100, 1_000, 2_000, ROOT, 0);
    assert_eq!(result, Err(XNomadError::InvalidPriceConfig));
}

#[test]
fn initialize_vault_reports_the_first_failing_check() {
    let all_bad = initialize_vault(OWNER, VAULT_KEY, RECIPIENT, 5, 5, 1, 2, 0, 0, ROOT, 0);
    assert_eq!(all_bad, Err(XNomadError::InvalidMintAmount));
    let time_and_price = initialize_vault(OWNER, VAULT_KEY, RECIPIENT, 5, 6, 1, 2, 0, 0, ROOT, 0);
    assert_eq!(time_and_price, Err(XNomadError::InvalidTimeConfig));
}

#[test]
fn update_vault_by_a_stranger_is_refused_and_changes_nothing() {
    let mut vault = sample_vault();
    let before = vault;
    let result = update_vault(
        &mut vault,
        &STRANGER,
        &VAULT_KEY,
        Some(STRANGER),
        Some(1),
        Some(2),
        Some(900),
        Some(50),
        Some(5),
        Some(6),
        Some([0u8; 32]),
        1_500,
    );
    assert_eq!(result, Err(XNomadError::UnauthorizedOwner));
    assert_eq!(vault, before);
}

#[test]
fn update_vault_with_no_field_changes_nothing() {
    let mut vault = sample_vault();
    let before = vault;
    let event = update_vault(
        &mut vault, &OWNER, &VAULT_KEY, None, None, None, None, None, None, None, None, 1_500,
    )
    .unwrap();
    assert_eq!(vault, before);
    assert_eq!(
        event,
        UpdateVaultEvent {
            vault: VAULT_KEY,
            recipient: None,
            max_unit_price: None,
            min_unit_price: None,
            max_mint_amount: None,
            whitelist_max_mint_amount: None,
            merkle_root: None,
            start_time: None,
            end_time: None,
            timestamp: 1_500,
        }
    );
}

#[test]
fn update_vault_applies_only_the_supplied_fields() {
    let mut vault = sample_vault();
    vault.total_deposited = 700;
    vault.total_nfts = 7;
    let new_root = [8u8; 32];
    let event = update_vault(
        &mut vault,
        &OWNER,
        &VAULT_KEY,
        None,
        Some(6),
        None,
        Some(900),
        None,
        None,
        Some(3_000),
        Some(new_root),
        1_500,
    )
    .unwrap();
    assert_eq!(
        vault,
        Vault {
            total_deposited: 700,
            total_nfts: 7,
            recipient: RECIPIENT,
            max_mint_amount: 6,
            whitelist_max_mint_amount: 10,
            max_unit_price: 900,
            min_unit_price: 100,
            start_time: 1_000,
            end_time: 3_000,
            owner: OWNER,
            merkle_root: new_root,
        }
    );
    assert_eq!(event.max_mint_amount, Some(6));
    assert_eq!(event.max_unit_price, Some(900));
    assert_eq!(event.end_time, Some(3_000));
    assert_eq!(event.merkle_root, Some(new_root));
    assert_eq!(event.recipient, None);
    assert_eq!(event.min_unit_price, None);
    assert_eq!(event.start_time, None);
    assert_eq!(event.whitelist_max_mint_amount, None);
    assert_eq!(event.vault, VAULT_KEY);
    assert_eq!(event.timestamp, 1_500);
}

#[test]
fn update_vault_applies_every_field_at_once() {
    let mut vault = sample_vault();
    let new_recipient = [7u8; 32];
    let new_root = [8u8; 32];
    update_vault(
        &mut vault,
        &OWNER,
        &VAULT_KEY,
        Some(new_recipient),
        Some(20),
        Some(30),
        Some(5_000),
        Some(4_000),
        Some(10),
        Some(20),
        Some(new_root),
        1_500,
    )
    .unwrap();
    assert_eq!(
        vault,
        Vault {
            total_deposited: 0,
            total_nfts: 0,
            recipient: new_recipient,
            max_mint_amount: 20,
            whitelist_max_mint_amount: 30,
            max_unit_price: 5_000,
            min_unit_price: 4_000,
            start_time: 10,
            end_time: 20,
            owner: OWNER,
            merkle_root: new_root,
        }
    );
    assert!(vault.is_wf());
}

#[test]
fn update_vault_checks_a_new_price_bound_against_the_stored_one() {
    let mut vault = sample_vault();
    let before = vault;
    let low_max = update_vault(
        &mut vault, &OWNER, &VAULT_KEY, None, None, None, Some(99), None, None, None, None, 0,
    );
    assert_eq!(low_max, Err(XNomadError::InvalidPriceConfig));
    assert_eq!(vault, before);
    let high_min = update_vault(
        &mut vault, &OWNER, &VAULT_KEY, None, None, None, None, Some(501), None, None, None, 0,
    );
    assert_eq!(high_min, Err(XNomadError::InvalidPriceConfig));
    assert_eq!(vault, before);
    update_vault(
        &mut vault, &OWNER, &VAULT_KEY, None, None, None, None, Some(500), None, None, None, 0,
    )
    .unwrap();
    assert_eq!(vault.min_unit_price, 500);
    assert_eq!(vault.max_unit_price, 500);
}

#[test]
fn update_vault_checks_both_new_price_bounds_against_each_other() {
    let mut vault = sample_vault();
    let before = vault;
    let crossed = update_vault(
        &mut vault, &OWNER, &VAULT_KEY, None, None, None, Some(10), Some(11), None, None, None, 0,
    );
    assert_eq!(crossed, Err(XNomadError::InvalidPriceConfig));
    assert_eq!(vault, before);
    update_vault(
        &mut vault, &OWNER, &VAULT_KEY, None, None, None, Some(50), Some(10), None, None, None, 0,
    )
    .unwrap();
    assert_eq!(vault.max_unit_price, 50);
    assert_eq!(vault.min_unit_price, 10);
}

#[test]
fn update_vault_checks_a_new_window_end_against_the_stored_start() {
    let mut vault = sample_vault();
    let before = vault;
    let early_end = update_vault(
        &mut vault, &OWNER, &VAULT_KEY, None, None, None, None, None, None, Some(1_000), None, 0,
    );
    assert_eq!(early_end, Err(XNomadError::InvalidTimeConfig));
    let late_start = update_vault(
        &mut vault, &OWNER, &VAULT_KEY, None, None, None, None, None, Some(2_000), None, None, 0,
    );
    assert_eq!(late_start, Err(XNomadError::InvalidTimeConfig));
    let zero_start = update_vault(
        &mut vault, &OWNER, &VAULT_KEY, None, None, None, None, None, Some(0), None, None, 0,
    );
    assert_eq!(zero_start, Err(XNomadError::InvalidTimeConfig));
    assert_eq!(vault, before);
    update_vault(
        &mut vault, &OWNER, &VAULT_KEY, None, None, None, None, None, Some(1_999), None, None, 0,
    )
    .unwrap();
    assert_eq!(vault.start_time, 1_999);
    assert_eq!(vault.end_time, 2_000);
}

#[test]
fn update_vault_checks_both_new_window_ends_against_each_other() {
    let mut vault = sample_vault();
    let before = vault;
    let reversed = update_vault(
        &mut vault, &OWNER, &VAULT_KEY, None, None, None, None, None, Some(5_000), Some(4_000), None, 0,
    );
    assert_eq!(reversed, Err(XNomadError::InvalidTimeConfig));
    assert_eq!(vault, before);
    update_vault(
        &mut vault, &OWNER, &VAULT_KEY, None, None, None, None, None, Some(4_000), Some(5_000), None, 0,
    )
    .unwrap();
    assert_eq!(vault.start_time, 4_000);
    assert_eq!(vault.end_time, 5_000);
}

#[test]
fn update_vault_reports_a_bad_price_before_a_bad_window() {
    let mut vault = sample_vault();
    let result = update_vault(
        &mut vault, &OWNER, &VAULT_KEY, None, None, None, Some(1), Some(2), Some(9), Some(8), None, 0,
    );
    assert_eq!(result, Err(XNomadError::InvalidPriceConfig));
}

#[test]
fn update_vault_may_put_the_whitelist_ceiling_below_the_public_one() {
    let mut vault = sample_vault();
    update_vault(
        &mut vault, &OWNER, &VAULT_KEY, None, Some(50), Some(2), None, None, None, None, None, 0,
    )
    .unwrap();
    assert_eq!(vault.max_mint_amount, 50);
    assert_eq!(vault.whitelist_max_mint_amount, 2);
}

#[test]
fn vault_is_wf_tells_a_bad_window_or_price_range() {
    let good = sample_vault();
    assert!(good.is_wf());
    let mut bad = good;
    bad.start_time = 0;
    assert!(!bad.is_wf());
    bad = good;
    bad.end_time = good.start_time;
    assert!(!bad.is_wf());
    bad = good;
    bad.min_unit_price = good.max_unit_price + 1;
    assert!(!bad.is_wf());
}
