use vstd::prelude::*;
use crate::addr_eq;
use crate::Addr;
use crate::authority::authority_check;
use crate::authority::derive_authority;
use crate::errors::EscrowError;
use crate::escrow::Escrow;
use crate::events::EscrowAccepted;
use crate::token::transfer_checked;
use crate::token::TokenAccount;

verus! {

/// The accounts an accept call supplies: the taker and its two token
/// accounts, the initialiser's asset-B destination, the holding account,
/// the two asset types and the record's own address.
#[derive(Clone, Copy, Debug, PartialEq, Eq)]
pub struct Accept {
    /// The caller completing the swap; the first caller wins.
    pub taker: Addr,
    /// The taker's account asset B is drawn from.
    pub taker_token_account: TokenAccount,
    /// The taker's account that receives asset A.
    pub taker_receive_token_account: TokenAccount,
    /// The initialiser's account that receives asset B; must be the one the
    /// record names.
    pub initialiser_receive_token_account: TokenAccount,
    /// The holding account; must be the one the record names, owned by the
    /// re-derived custodial authority.
    pub vault_account: TokenAccount,
    /// Asset A, the escrowed asset.
    pub mint_a: Addr,
    /// Asset B, the asset the initialiser asked for.
    pub mint_b: Addr,
    /// The record's own address, a seed of the custodial authority.
    pub escrow_key: Addr,
}

/// When an accept call settles the swap.
pub open spec fn accept_ok(a: Accept, e: Escrow) -> bool {
    &&& e.is_active
    &&& a.vault_account.key == e.vault_account
    &&& a.initialiser_receive_token_account.key == e.initialiser_receive_token_account
    &&& authority_check(a.escrow_key, e.bump, a.vault_account.owner)
    &&& a.taker_token_account.owner == a.taker
    &&& a.taker_token_account.mint == a.mint_b
    &&& a.initialiser_receive_token_account.mint == a.mint_b
    &&& a.vault_account.mint == a.mint_a
    &&& a.taker_receive_token_account.mint == a.mint_a
    &&& a.taker_token_account.balance >= e.amount_b
    &&& a.initialiser_receive_token_account.balance + e.amount_b <= u64::MAX
    &&& a.vault_account.balance >= e.amount_a
    &&& a.taker_receive_token_account.balance + e.amount_a <= u64::MAX
}

/// The error a refused accept reports, by the first failing check.
pub open spec fn accept_error(a: Accept, e: Escrow) -> EscrowError {
    if !e.is_active {
        EscrowError::NotActive
    } else if a.vault_account.key != e.vault_account {
        EscrowError::AuthorityMismatch
    } else if a.initialiser_receive_token_account.key != e.initialiser_receive_token_account {
        EscrowError::Unauthorized
    } else if !authority_check(a.escrow_key, e.bump, a.vault_account.owner) {
        EscrowError::AuthorityMismatch
    } else if a.taker_token_account.owner != a.taker {
        EscrowError::Unauthorized
    } else if a.taker_token_account.mint != a.mint_b
        || a.initialiser_receive_token_account.mint != a.mint_b || a.vault_account.mint != a.mint_a
        || a.taker_receive_token_account.mint != a.mint_a {
        EscrowError::AssetMismatch
    } else {
        EscrowError::TransferFailure
    }
}

/// The accounts after an accept call: on success asset B moves taker to
/// initialiser and asset A moves holding to taker; on a refusal nothing
/// moves.
pub open spec fn accept_accounts_after(a: Accept, e: Escrow) -> Accept {
    if accept_ok(a, e) {
        Accept {
            taker_token_account: TokenAccount {
                balance: (a.taker_token_account.balance - e.amount_b) as u64,
                ..a.taker_token_account
            },
            initialiser_receive_token_account: TokenAccount {
                balance: (a.initialiser_receive_token_account.balance + e.amount_b) as u64,
                ..a.initialiser_receive_token_account
            },
            vault_account: TokenAccount {
                balance: (a.vault_account.balance - e.amount_a) as u64,
                ..a.vault_account
            },
            taker_receive_token_account: TokenAccount {
                balance: (a.taker_receive_token_account.balance + e.amount_a) as u64,
                ..a.taker_receive_token_account
            },
            ..a
        }
    } else {
        a
    }
}

/// The record after an accept call: closed on success, untouched otherwise.
pub open spec fn accept_record_after(a: Accept, e: Escrow) -> Escrow {
    if accept_ok(a, e) {
        Escrow { is_active: false, ..e }
    } else {
        e
    }
}

/// Accept operation: the two-legged swap. Every check runs before either
/// leg, so a refused call moves nothing; a successful call moves both legs
/// and closes the record in the same unit.
pub fn accept(accounts: &mut Accept, escrow: &mut Escrow) -> (r: Result<
    EscrowAccepted,
    EscrowError,
>)
    ensures
        r is Ok <==> accept_ok(*old(accounts), *old(escrow)),
        r is Ok ==> r->Ok_0 == (EscrowAccepted { taker: old(accounts).taker }),
        r is Err ==> r->Err_0 == accept_error(*old(accounts), *old(escrow)),
        *final(accounts) == accept_accounts_after(*old(accounts), *old(escrow)),
        *final(escrow) == accept_record_after(*old(accounts), *old(escrow)),
{
    if !escrow.is_active {
        return Err(EscrowError::NotActive);
    }
    if !addr_eq(&accounts.vault_account.key, &escrow.vault_account) {
        return Err(EscrowError::AuthorityMismatch);
    }
    if !addr_eq(
        &accounts.initialiser_receive_token_account.key,
        &escrow.initialiser_receive_token_account,
    ) {
        return Err(EscrowError::Unauthorized);
    }
    let authority: Addr = match derive_authority(&accounts.escrow_key, escrow.bump) {
        Some(a) => {
            if !addr_eq(&a, &accounts.vault_account.owner) {
                proof {
                    if a@ == accounts.vault_account.owner@ {
                        assert(a =~= accounts.vault_account.owner);
                    }
                }
                return Err(EscrowError::AuthorityMismatch);
            }
            a
        },
        None => {
            return Err(EscrowError::AuthorityMismatch);
        },
    };
    if !addr_eq(&accounts.taker_token_account.owner, &accounts.taker) {
        return Err(EscrowError::Unauthorized);
    }
    if !addr_eq(&accounts.taker_token_account.mint, &accounts.mint_b) || !addr_eq(
        &accounts.initialiser_receive_token_account.mint,
        &accounts.mint_b,
    ) || !addr_eq(&accounts.vault_account.mint, &accounts.mint_a) || !addr_eq(
        &accounts.taker_receive_token_account.mint,
        &accounts.mint_a,
    ) {
        return Err(EscrowError::AssetMismatch);
    }
    if accounts.taker_token_account.balance < escrow.amount_b || escrow.amount_b > u64::MAX
        - accounts.initialiser_receive_token_account.balance || accounts.vault_account.balance
        < escrow.amount_a || escrow.amount_a > u64::MAX
        - accounts.taker_receive_token_account.balance {
        return Err(EscrowError::TransferFailure);
    }
    let taker = accounts.taker;
    let mint_a = accounts.mint_a;
    let mint_b = accounts.mint_b;
    let amount_a = escrow.amount_a;
    let amount_b = escrow.amount_b;
    transfer_checked(
        &mut accounts.taker_token_account,
        &mut accounts.initialiser_receive_token_account,
        &taker,
        &mint_b,
        amount_b,
    ).unwrap();
    transfer_checked(
        &mut accounts.vault_account,
        &mut accounts.taker_receive_token_account,
        &authority,
        &mint_a,
        amount_a,
    ).unwrap();
    escrow.is_active = false;
    Ok(EscrowAccepted { taker })
}

} // verus!
