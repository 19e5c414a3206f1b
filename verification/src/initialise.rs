use vstd::prelude::*;
use crate::addr_eq;
use crate::Addr;
use crate::authority::authority_check;
use crate::authority::derived_authority;
use crate::authority::find_authority;
use crate::authority::program_id;
use crate::authority::seed_label;
use crate::errors::EscrowError;
use crate::escrow::Escrow;
use crate::events::EscrowInitialised;
use crate::token::transfer_checked;
use crate::token::TokenAccount;

verus! {

/// The accounts an initialise call supplies: the initialiser and its two
/// token accounts, the holding account to be funded, asset A's type and the
/// address of the freshly allocated record slot.
#[derive(Clone, Copy, Debug, PartialEq, Eq)]
pub struct Initialise {
    /// The caller opening the swap; must own both of its token accounts.
    pub initialiser: Addr,
    /// The account asset A is drawn from.
    pub initialiser_token_account: TokenAccount,
    /// The account that will receive asset B when a taker accepts.
    pub initialiser_receive_token_account: TokenAccount,
    /// The holding account; must hold the same asset as the source account.
    pub vault_account: TokenAccount,
    /// Asset A, the asset being escrowed.
    pub mint_a: Addr,
    /// The new record's own address, a seed of the custodial authority.
    pub escrow_key: Addr,
}

/// When an initialise call opens the swap.
pub open spec fn initialise_ok(a: Initialise, amount_a: u64) -> bool {
    &&& a.initialiser_token_account.owner == a.initialiser
    &&& a.initialiser_receive_token_account.owner == a.initialiser
    &&& a.vault_account.mint == a.initialiser_token_account.mint
    &&& a.mint_a == a.vault_account.mint
    &&& (exists|n: u8| derived_authority(seed_label(), a.escrow_key@, n, program_id()) is Some)
    &&& a.initialiser_token_account.balance >= amount_a
    &&& a.vault_account.balance + amount_a <= u64::MAX
}

/// The error a refused initialise reports, by the first failing check.
pub open spec fn initialise_error(a: Initialise, amount_a: u64) -> EscrowError {
    if a.initialiser_token_account.owner != a.initialiser
        || a.initialiser_receive_token_account.owner != a.initialiser {
        EscrowError::Unauthorized
    } else if a.vault_account.mint != a.initialiser_token_account.mint
        || a.mint_a != a.vault_account.mint {
        EscrowError::AssetMismatch
    } else if !(exists|n: u8|
        derived_authority(seed_label(), a.escrow_key@, n, program_id()) is Some) {
        EscrowError::AuthorityMismatch
    } else {
        EscrowError::TransferFailure
    }
}

/// Initialise operation: populate a fresh record, derive and store the
/// custodial authority's nonce, fund the holding account with `amount_a`
/// from the initialiser's own account and hand the holding account to the
/// derived authority. A refused call moves nothing and returns no record.
pub fn initialise(accounts: &mut Initialise, amount_a: u64, amount_b: u64) -> (r: Result<
    (Escrow, EscrowInitialised),
    EscrowError,
>)
    ensures
        r is Ok <==> initialise_ok(*old(accounts), amount_a),
        r is Err ==> *final(accounts) == *old(accounts),
        r is Err ==> r->Err_0 == initialise_error(*old(accounts), amount_a),
        r is Ok ==> ({
            let rec = r->Ok_0.0;
            &&& rec.initialiser == old(accounts).initialiser
            &&& rec.initialiser_token_account == old(accounts).initialiser_token_account.key
            &&& rec.initialiser_receive_token_account
                == old(accounts).initialiser_receive_token_account.key
            &&& rec.vault_account == old(accounts).vault_account.key
            &&& rec.amount_a == amount_a
            &&& rec.amount_b == amount_b
            &&& rec.is_active
            &&& authority_check(
                old(accounts).escrow_key,
                rec.bump,
                final(accounts).vault_account.owner,
            )
            &&& (forall|m: u8|
                m > rec.bump ==> derived_authority(
                    seed_label(),
                    old(accounts).escrow_key@,
                    m,
                    program_id(),
                ) is None)
        }),
        r is Ok ==> r->Ok_0.1 == (EscrowInitialised {
            initialiser: old(accounts).initialiser,
            amount_a,
            amount_b,
        }),
        r is Ok ==> *final(accounts) == (Initialise {
            initialiser_token_account: TokenAccount {
                balance: (old(accounts).initialiser_token_account.balance - amount_a) as u64,
                ..old(accounts).initialiser_token_account
            },
            vault_account: TokenAccount {
                owner: final(accounts).vault_account.owner,
                balance: (old(accounts).vault_account.balance + amount_a) as u64,
                ..old(accounts).vault_account
            },
            ..*old(accounts)
        }),
{
    if !addr_eq(&accounts.initialiser_token_account.owner, &accounts.initialiser) || !addr_eq(
        &accounts.initialiser_receive_token_account.owner,
        &accounts.initialiser,
    ) {
        return Err(EscrowError::Unauthorized);
    }
    if !addr_eq(&accounts.vault_account.mint, &accounts.initialiser_token_account.mint)
        || !addr_eq(&accounts.mint_a, &accounts.vault_account.mint) {
        return Err(EscrowError::AssetMismatch);
    }
    let found = find_authority(&accounts.escrow_key);
    let (authority, bump): (Addr, u8) = match found {
        Some(an) => an,
        None => {
            return Err(EscrowError::AuthorityMismatch);
        },
    };
    if accounts.initialiser_token_account.balance < amount_a || amount_a > u64::MAX
        - accounts.vault_account.balance {
        return Err(EscrowError::TransferFailure);
    }
    let escrow = Escrow {
        initialiser: accounts.initialiser,
        initialiser_token_account: accounts.initialiser_token_account.key,
        initialiser_receive_token_account: accounts.initialiser_receive_token_account.key,
        vault_account: accounts.vault_account.key,
        amount_a,
        amount_b,
        bump,
        is_active: true,
    };
    let initialiser = accounts.initialiser;
    let mint_a = accounts.mint_a;
    transfer_checked(
        &mut accounts.initialiser_token_account,
        &mut accounts.vault_account,
        &initialiser,
        &mint_a,
        amount_a,
    ).unwrap();
    accounts.vault_account.owner = authority;
    let event = EscrowInitialised { initialiser: accounts.initialiser, amount_a, amount_b };
    Ok((escrow, event))
}

} // verus!
