use vstd::prelude::*;
use crate::addr_eq;
use crate::Addr;
use crate::authority::authority_check;
use crate::authority::derive_authority;
use crate::errors::EscrowError;
use crate::escrow::Escrow;
use crate::events::EscrowCancelled;
use crate::token::transfer_checked;
use crate::token::TokenAccount;

verus! {

/// The accounts a cancel call supplies: the caller, the account that takes
/// asset A back, the holding account, asset A's type and the record's own
/// address.
#[derive(Clone, Copy, Debug, PartialEq, Eq)]
pub struct Cancel {
    /// The caller; only the record's initialiser may cancel.
    pub initialiser: Addr,
    /// The initialiser's reclaim account; must be the source account the
    /// record names, owned by the caller.
    pub initialiser_token_account: TokenAccount,
    /// The holding account; must be the one the record names, owned by the
    /// re-derived custodial authority.
    pub vault_account: TokenAccount,
    /// Asset A, the escrowed asset.
    pub mint_a: Addr,
    /// The record's own address, a seed of the custodial authority.
    pub escrow_key: Addr,
}

/// When a cancel call returns the escrowed asset.
pub open spec fn cancel_ok(c: Cancel, e: Escrow) -> bool {
    &&& e.is_active
    &&& c.initialiser == e.initialiser
    &&& c.initialiser_token_account.key == e.initialiser_token_account
    &&& c.initialiser_token_account.owner == c.initialiser
    &&& c.vault_account.key == e.vault_account
    &&& authority_check(c.escrow_key, e.bump, c.vault_account.owner)
    &&& c.vault_account.mint == c.mint_a
    &&& c.initialiser_token_account.mint == c.mint_a
    &&& c.vault_account.balance >= e.amount_a
    &&& c.initialiser_token_account.balance + e.amount_a <= u64::MAX
}

/// The error a refused cancel reports, by the first failing check.
pub open spec fn cancel_error(c: Cancel, e: Escrow) -> EscrowError {
    if !e.is_active {
        EscrowError::NotActive
    } else if c.initialiser != e.initialiser {
        EscrowError::Unauthorized
    } else if c.initialiser_token_account.key != e.initialiser_token_account
        || c.initialiser_token_account.owner != c.initialiser {
        EscrowError::Unauthorized
    } else if c.vault_account.key != e.vault_account {
        EscrowError::AuthorityMismatch
    } else if !authority_check(c.escrow_key, e.bump, c.vault_account.owner) {
        EscrowError::AuthorityMismatch
    } else if c.vault_account.mint != c.mint_a || c.initialiser_token_account.mint != c.mint_a {
        EscrowError::AssetMismatch
    } else {
        EscrowError::TransferFailure
    }
}

/// The accounts after a cancel call: on success asset A returns from the
/// holding account to the initialiser's reclaim account; on a refusal
/// nothing moves.
pub open spec fn cancel_accounts_after(c: Cancel, e: Escrow) -> Cancel {
    if cancel_ok(c, e) {
        Cancel {
            vault_account: TokenAccount {
                balance: (c.vault_account.balance - e.amount_a) as u64,
                ..c.vault_account
            },
            initialiser_token_account: TokenAccount {
                balance: (c.initialiser_token_account.balance + e.amount_a) as u64,
                ..c.initialiser_token_account
            },
            ..c
        }
    } else {
        c
    }
}

/// The record after a cancel call: closed on success, untouched otherwise.
pub open spec fn cancel_record_after(c: Cancel, e: Escrow) -> Escrow {
    if cancel_ok(c, e) {
        Escrow { is_active: false, ..e }
    } else {
        e
    }
}

/// Cancel operation: only the initialiser, while the record is active, may
/// take the escrowed asset back. Every check runs before the transfer, so a
/// refused call moves nothing.
pub fn cancel(accounts: &mut Cancel, escrow: &mut Escrow) -> (r: Result<
    EscrowCancelled,
    EscrowError,
>)
    ensures
        r is Ok <==> cancel_ok(*old(accounts), *old(escrow)),
        r is Ok ==> r->Ok_0 == (EscrowCancelled {
            initialiser: old(accounts).initialiser,
            escrow_account: old(accounts).escrow_key,
        }),
        r is Err ==> r->Err_0 == cancel_error(*old(accounts), *old(escrow)),
        *final(accounts) == cancel_accounts_after(*old(accounts), *old(escrow)),
        *final(escrow) == cancel_record_after(*old(accounts), *old(escrow)),
{
    if !escrow.is_active {
        return Err(EscrowError::NotActive);
    }
    if !addr_eq(&accounts.initialiser, &escrow.initialiser) {
        return Err(EscrowError::Unauthorized);
    }
    if !addr_eq(&accounts.initialiser_token_account.key, &escrow.initialiser_token_account)
        || !addr_eq(&accounts.initialiser_token_account.owner, &accounts.initialiser) {
        return Err(EscrowError::Unauthorized);
    }
    if !addr_eq(&accounts.vault_account.key, &escrow.vault_account) {
        return Err(EscrowError::AuthorityMismatch);
    }
    let authority: Addr = match derive_authority(&accounts.escrow_key, escrow.bump) {
        Some(a) => {
            if !addr_eq(&a, &accounts.vault_account.owner) {
                proof {
                    if a@ == accounts.vault_account.owner@ {
                        assert(a =~= accounts.vault_account.owner);
                    }
                }
                return Err(EscrowError::AuthorityMismatch);
            }
            a
        },
        None => {
            return Err(EscrowError::AuthorityMismatch);
        },
    };
    if !addr_eq(&accounts.vault_account.mint, &accounts.mint_a) || !addr_eq(
        &accounts.initialiser_token_account.mint,
        &accounts.mint_a,
    ) {
        return Err(EscrowError::AssetMismatch);
    }
    if accounts.vault_account.balance < escrow.amount_a || escrow.amount_a > u64::MAX
        - accounts.initialiser_token_account.balance {
        return Err(EscrowError::TransferFailure);
    }
    let mint_a = accounts.mint_a;
    let amount_a = escrow.amount_a;
    transfer_checked(
        &mut accounts.vault_account,
        &mut accounts.initialiser_token_account,
        &authority,
        &mint_a,
        amount_a,
    ).unwrap();
    escrow.is_active = false;
    Ok(
        EscrowCancelled {
            initialiser: accounts.initialiser,
            escrow_account: accounts.escrow_key,
        },
    )
}

} // verus!
