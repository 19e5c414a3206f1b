use escrow_contract::accept::accept;
use escrow_contract::accept::Accept;
use escrow_contract::accept_escrow;
use escrow_contract::addr_eq;
use escrow_contract::authority::derive_authority;
use escrow_contract::authority::find_authority;
use escrow_contract::cancel::cancel;
use escrow_contract::cancel::Cancel;
use escrow_contract::cancel_escrow;
use escrow_contract::errors::EscrowError;
use escrow_contract::escrow::Escrow;
use escrow_contract::events::EscrowAccepted;
use escrow_contract::events::EscrowCancelled;
use escrow_contract::events::EscrowInitialised;
use escrow_contract::initialise::initialise;
use escrow_contract::initialise::Initialise;
use escrow_contract::initialise_escrow;
use escrow_contract::token::transfer_checked;
use escrow_contract::token::TokenAccount;
use escrow_contract::Addr;

const MINT_A: Addr = [100u8; 32];
const MINT_B: Addr = [101u8; 32];
const INITIALISER: Addr = [1u8; 32];
const TAKER: Addr = [2u8; 32];
const ESCROW_KEY: Addr = [50u8; 32];

fn initialise_accounts() -> Initialise {
    Initialise {
        initialiser: INITIALISER,
        initialiser_token_account: TokenAccount {
            key: [10u8; 32],
            owner: INITIALISER,
            mint: MINT_A,
            balance: 2_000_000,
        },
        initialiser_receive_token_account: TokenAccount {
            key: [11u8; 32],
            owner: INITIALISER,
            mint: MINT_B,
            balance: 0,
        },
        vault_account: TokenAccount {
            key: [12u8; 32],
            owner: INITIALISER,
            mint: MINT_A,
            balance: 0,
        },
        mint_a: MINT_A,
        escrow_key: ESCROW_KEY,
    }
}

/// Opens the swap of the base scenario and returns the populated accounts
/// and the created record.
fn opened_escrow() -> (Initialise, Escrow) {
    let mut accounts = initialise_accounts();
    let (record, _event) = initialise(&mut accounts, 1_000_000, 500_000).unwrap();
    (accounts, record)
}

fn accept_accounts_for(opened: &Initialise) -> Accept {
    Accept {
        taker: TAKER,
        taker_token_account: TokenAccount {
            key: [20u8; 32],
            owner: TAKER,
            mint: MINT_B,
            balance: 600_000,
        },
        taker_receive_token_account: TokenAccount {
            key: [21u8; 32],
            owner: TAKER,
            mint: MINT_A,
            balance: 0,
        },
        initialiser_receive_token_account: opened.initialiser_receive_token_account,
        vault_account: opened.vault_account,
        mint_a: MINT_A,
        mint_b: MINT_B,
        escrow_key: ESCROW_KEY,
    }
}

fn cancel_accounts_for(opened: &Initialise) -> Cancel {
    Cancel {
        initialiser: INITIALISER,
        initialiser_token_account: opened.initialiser_token_account,
        vault_account: opened.vault_account,
        mint_a: MINT_A,
        escrow_key: ESCROW_KEY,
    }
}

#[test]
fn scenario_a_initialise_funds_vault_and_activates() {
    let (accounts, record) = opened_escrow();
    assert_eq!(accounts.vault_account.balance, 1_000_000);
    assert!(record.is_active);
    assert_eq!(record.initialiser, INITIALISER);
    assert_eq!(record.initialiser_token_account, [10u8; 32]);
    assert_eq!(record.initialiser_receive_token_account, [11u8; 32]);
    assert_eq!(record.vault_account, [12u8; 32]);
    assert_eq!(record.amount_a, 1_000_000);
    assert_eq!(record.amount_b, 500_000);
    assert_eq!(accounts.initialiser_token_account.balance, 1_000_000);
}

#[test]
fn initialise_emits_creation_event() {
    let mut accounts = initialise_accounts();
    let (_record, event) = initialise(&mut accounts, 1_000_000, 500_000).unwrap();
    assert_eq!(
        event,
        EscrowInitialised { initialiser: INITIALISER, amount_a: 1_000_000, amount_b: 500_000 }
    );
}

#[test]
fn initialise_hands_vault_to_derived_authority() {
    let (accounts, record) = opened_escrow();
    let derived = derive_authority(&ESCROW_KEY, record.bump).unwrap();
    assert_eq!(accounts.vault_account.owner, derived);
    assert_ne!(derived, ESCROW_KEY);
    assert_ne!(derived, INITIALISER);
}

#[test]
fn scenario_b_accept_settles_both_legs() {
    let (opened, mut record) = opened_escrow();
    let mut accounts = accept_accounts_for(&opened);
    let event = accept(&mut accounts, &mut record).unwrap();
    assert_eq!(event, EscrowAccepted { taker: TAKER });
    assert_eq!(accounts.initialiser_receive_token_account.balance, 500_000);
    assert_eq!(accounts.taker_token_account.balance, 100_000);
    assert_eq!(accounts.taker_receive_token_account.balance, 1_000_000);
    assert_eq!(accounts.vault_account.balance, 0);
    assert!(!record.is_active);
}

#[test]
fn scenario_c_cancel_returns_asset_a() {
    let (opened, mut record) = opened_escrow();
    let mut accounts = cancel_accounts_for(&opened);
    let event = cancel(&mut accounts, &mut record).unwrap();
    assert_eq!(event, EscrowCancelled { initialiser: INITIALISER, escrow_account: ESCROW_KEY });
    assert_eq!(accounts.initialiser_token_account.balance, 2_000_000);
    assert_eq!(accounts.vault_account.balance, 0);
    assert!(!record.is_active);
}

#[test]
fn scenario_d_accept_after_cancel_is_refused_inactive() {
    let (opened, mut record) = opened_escrow();
    let mut cancel_accs = cancel_accounts_for(&opened);
    cancel(&mut cancel_accs, &mut record).unwrap();
    let mut accounts = accept_accounts_for(&opened);
    accounts.vault_account = cancel_accs.vault_account;
    let before = accounts;
    let r = accept(&mut accounts, &mut record);
    assert_eq!(r, Err(EscrowError::NotActive));
    assert_eq!(accounts, before);
    assert!(!record.is_active);
}

#[test]
fn scenario_e_cancel_by_stranger_is_unauthorized() {
    let (opened, mut record) = opened_escrow();
    let mut accounts = cancel_accounts_for(&opened);
    accounts.initialiser = [3u8; 32];
    let before = accounts;
    let r = cancel(&mut accounts, &mut record);
    assert_eq!(r, Err(EscrowError::Unauthorized));
    assert_eq!(accounts, before);
    assert!(record.is_active);
}

#[test]
fn cancel_after_accept_is_refused_inactive() {
    let (opened, mut record) = opened_escrow();
    let mut accept_accs = accept_accounts_for(&opened);
    accept(&mut accept_accs, &mut record).unwrap();
    let mut accounts = cancel_accounts_for(&opened);
    accounts.vault_account = accept_accs.vault_account;
    let before = accounts;
    let r = cancel(&mut accounts, &mut record);
    assert_eq!(r, Err(EscrowError::NotActive));
    assert_eq!(accounts, before);
}

#[test]
fn cancel_twice_is_refused_inactive() {
    let (opened, mut record) = opened_escrow();
    let mut accounts = cancel_accounts_for(&opened);
    cancel(&mut accounts, &mut record).unwrap();
    let r = cancel(&mut accounts, &mut record);
    assert_eq!(r, Err(EscrowError::NotActive));
}

#[test]
fn accept_with_tampered_vault_owner_is_authority_mismatch() {
    let (opened, mut record) = opened_escrow();
    let mut accounts = accept_accounts_for(&opened);
    accounts.vault_account.owner = [9u8; 32];
    let before = accounts;
    let r = accept(&mut accounts, &mut record);
    assert_eq!(r, Err(EscrowError::AuthorityMismatch));
    assert_eq!(accounts, before);
    assert!(record.is_active);
}

#[test]
fn accept_with_wrong_vault_account_is_authority_mismatch() {
    let (opened, mut record) = opened_escrow();
    let mut accounts = accept_accounts_for(&opened);
    accounts.vault_account.key = [99u8; 32];
    let r = accept(&mut accounts, &mut record);
    assert_eq!(r, Err(EscrowError::AuthorityMismatch));
    assert!(record.is_active);
}

#[test]
fn accept_with_short_taker_balance_is_transfer_failure() {
    let (opened, mut record) = opened_escrow();
    let mut accounts = accept_accounts_for(&opened);
    accounts.taker_token_account.balance = 499_999;
    let before = accounts;
    let r = accept(&mut accounts, &mut record);
    assert_eq!(r, Err(EscrowError::TransferFailure));
    assert_eq!(accounts, before);
    assert!(record.is_active);
}

#[test]
fn accept_with_wrong_asset_is_asset_mismatch() {
    let (opened, mut record) = opened_escrow();
    let mut accounts = accept_accounts_for(&opened);
    accounts.taker_token_account.mint = MINT_A;
    let r = accept(&mut accounts, &mut record);
    assert_eq!(r, Err(EscrowError::AssetMismatch));
    assert!(record.is_active);
}

#[test]
fn accept_with_wrong_receive_account_is_unauthorized() {
    let (opened, mut record) = opened_escrow();
    let mut accounts = accept_accounts_for(&opened);
    accounts.initialiser_receive_token_account.key = [77u8; 32];
    let r = accept(&mut accounts, &mut record);
    assert_eq!(r, Err(EscrowError::Unauthorized));
    assert!(record.is_active);
}

#[test]
fn initialise_with_foreign_source_is_unauthorized() {
    let mut accounts = initialise_accounts();
    accounts.initialiser_token_account.owner = [4u8; 32];
    let before = accounts;
    let r = initialise(&mut accounts, 1_000_000, 500_000);
    assert_eq!(r, Err(EscrowError::Unauthorized));
    assert_eq!(accounts, before);
}

#[test]
fn initialise_with_cross_asset_vault_is_asset_mismatch() {
    let mut accounts = initialise_accounts();
    accounts.vault_account.mint = MINT_B;
    let r = initialise(&mut accounts, 1_000_000, 500_000);
    assert_eq!(r, Err(EscrowError::AssetMismatch));
}

#[test]
fn initialise_with_short_balance_is_transfer_failure() {
    let mut accounts = initialise_accounts();
    accounts.initialiser_token_account.balance = 999_999;
    let r = initialise(&mut accounts, 1_000_000, 500_000);
    assert_eq!(r, Err(EscrowError::TransferFailure));
}

#[test]
fn initialise_overflowing_vault_is_transfer_failure() {
    let mut accounts = initialise_accounts();
    accounts.vault_account.balance = u64::MAX;
    let r = initialise(&mut accounts, 1_000_000, 500_000);
    assert_eq!(r, Err(EscrowError::TransferFailure));
}

#[test]
fn cancel_with_wrong_reclaim_account_is_unauthorized() {
    let (opened, mut record) = opened_escrow();
    let mut accounts = cancel_accounts_for(&opened);
    accounts.initialiser_token_account.key = [88u8; 32];
    let r = cancel(&mut accounts, &mut record);
    assert_eq!(r, Err(EscrowError::Unauthorized));
    assert!(record.is_active);
}

#[test]
fn entry_points_settle_a_full_swap() {
    let mut accounts = initialise_accounts();
    let (record, _event) = initialise_escrow(&mut accounts, 1_000_000, 500_000).unwrap();
    let mut record = record;
    let mut accept_accs = accept_accounts_for(&accounts);
    let event = accept_escrow(&mut accept_accs, &mut record).unwrap();
    assert_eq!(event, EscrowAccepted { taker: TAKER });
    assert!(!record.is_active);
    let mut cancel_accs = cancel_accounts_for(&accounts);
    cancel_accs.vault_account = accept_accs.vault_account;
    let r = cancel_escrow(&mut cancel_accs, &mut record);
    assert_eq!(r, Err(EscrowError::NotActive));
}

#[test]
fn derivation_is_deterministic_and_reproducible() {
    let found = find_authority(&ESCROW_KEY).unwrap();
    let again = find_authority(&ESCROW_KEY).unwrap();
    assert_eq!(found, again);
    let rederived = derive_authority(&ESCROW_KEY, found.1).unwrap();
    assert_eq!(found.0, rederived);
    assert_ne!(found.0, ESCROW_KEY);
}

#[test]
fn different_records_get_different_authorities() {
    let first = find_authority(&[50u8; 32]).unwrap();
    let second = find_authority(&[51u8; 32]).unwrap();
    assert_ne!(first.0, second.0);
}

#[test]
fn transfer_checked_moves_exactly_the_amount() {
    let mut from = TokenAccount { key: [10u8; 32], owner: [1u8; 32], mint: MINT_A, balance: 70 };
    let mut to = TokenAccount { key: [11u8; 32], owner: [2u8; 32], mint: MINT_A, balance: 5 };
    transfer_checked(&mut from, &mut to, &[1u8; 32], &MINT_A, 70).unwrap();
    assert_eq!(from.balance, 0);
    assert_eq!(to.balance, 75);
}

#[test]
fn transfer_checked_refuses_wrong_authority() {
    let mut from = TokenAccount { key: [10u8; 32], owner: [1u8; 32], mint: MINT_A, balance: 70 };
    let mut to = TokenAccount { key: [11u8; 32], owner: [2u8; 32], mint: MINT_A, balance: 5 };
    let r = transfer_checked(&mut from, &mut to, &[2u8; 32], &MINT_A, 10);
    assert_eq!(r, Err(EscrowError::Unauthorized));
    assert_eq!(from.balance, 70);
    assert_eq!(to.balance, 5);
}

#[test]
fn transfer_checked_refuses_mixed_assets() {
    let mut from = TokenAccount { key: [10u8; 32], owner: [1u8; 32], mint: MINT_A, balance: 70 };
    let mut to = TokenAccount { key: [11u8; 32], owner: [2u8; 32], mint: MINT_B, balance: 5 };
    let r = transfer_checked(&mut from, &mut to, &[1u8; 32], &MINT_A, 10);
    assert_eq!(r, Err(EscrowError::AssetMismatch));
}

#[test]
fn transfer_checked_refuses_overdraft_and_overflow() {
    let mut from = TokenAccount { key: [10u8; 32], owner: [1u8; 32], mint: MINT_A, balance: 70 };
    let mut to = TokenAccount { key: [11u8; 32], owner: [2u8; 32], mint: MINT_A, balance: u64::MAX };
    let r = transfer_checked(&mut from, &mut to, &[1u8; 32], &MINT_A, 71);
    assert_eq!(r, Err(EscrowError::TransferFailure));
    let r = transfer_checked(&mut from, &mut to, &[1u8; 32], &MINT_A, 1);
    assert_eq!(r, Err(EscrowError::TransferFailure));
    assert_eq!(from.balance, 70);
    assert_eq!(to.balance, u64::MAX);
}

#[test]
fn addr_eq_compares_all_bytes() {
    let mut a = [7u8; 32];
    let b = [7u8; 32];
    assert!(addr_eq(&a, &b));
    a[31] = 8;
    assert!(!addr_eq(&a, &b));
}

#[test]
fn zero_amount_swap_settles() {
    let mut accounts = initialise_accounts();
    let (mut record, _event) = initialise(&mut accounts, 0, 0).unwrap();
    assert!(record.is_active);
    assert_eq!(accounts.vault_account.balance, 0);
    let mut accept_accs = accept_accounts_for(&accounts);
    accept(&mut accept_accs, &mut record).unwrap();
    assert!(!record.is_active);
    assert_eq!(accept_accs.taker_receive_token_account.balance, 0);
}
