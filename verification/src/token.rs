use vstd::prelude::*;
use crate::addr_eq;
use crate::Addr;
use crate::errors::EscrowError;

verus! {

/// One fungible-token account as the escrow logic reads it: its address on
/// the ledger, the party that may authorise debits, the asset it holds and
/// its balance.
#[derive(Clone, Copy, Debug, PartialEq, Eq)]
pub struct TokenAccount {
    pub key: Addr,
    pub owner: Addr,
    pub mint: Addr,
    pub balance: u64,
}

/// When the token-transfer service carries out a transfer: the authority
/// owns the source, both accounts hold the named asset, the source balance
/// covers the amount and the destination balance can take it.
pub open spec fn transfer_ok(
    from: TokenAccount,
    to: TokenAccount,
    authority: Addr,
    mint: Addr,
    amount: u64,
) -> bool {
    &&& from.owner == authority
    &&& from.mint == mint
    &&& to.mint == mint
    &&& from.balance >= amount
    &&& to.balance + amount <= u64::MAX
}

/// The error a refused transfer reports, by the first failing check.
pub open spec fn transfer_error(
    from: TokenAccount,
    to: TokenAccount,
    authority: Addr,
    mint: Addr,
    amount: u64,
) -> EscrowError {
    if from.owner != authority {
        EscrowError::Unauthorized
    } else if from.mint != mint || to.mint != mint {
        EscrowError::AssetMismatch
    } else {
        EscrowError::TransferFailure
    }
}

/// The token-transfer service at its interface: moves `amount` of asset
/// `mint` from `from` to `to` when `authority` may spend the source and the
/// balances allow it, and otherwise fails without touching either account.
pub fn transfer_checked(
    from: &mut TokenAccount,
    to: &mut TokenAccount,
    authority: &Addr,
    mint: &Addr,
    amount: u64,
) -> (r: Result<(), EscrowError>)
    ensures
        r is Ok <==> transfer_ok(*old(from), *old(to), *authority, *mint, amount),
        r is Err ==> *final(from) == *old(from) && *final(to) == *old(to),
        r is Err ==> r->Err_0 == transfer_error(*old(from), *old(to), *authority, *mint, amount),
        r is Ok ==> *final(from) == (TokenAccount {
            balance: (old(from).balance - amount) as u64,
            ..*old(from)
        }),
        r is Ok ==> *final(to) == (TokenAccount {
            balance: (old(to).balance + amount) as u64,
            ..*old(to)
        }),
{
    if !addr_eq(&from.owner, authority) {
        return Err(EscrowError::Unauthorized);
    }
    if !addr_eq(&from.mint, mint) || !addr_eq(&to.mint, mint) {
        return Err(EscrowError::AssetMismatch);
    }
    if from.balance < amount {
        return Err(EscrowError::TransferFailure);
    }
    if amount > u64::MAX - to.balance {
        return Err(EscrowError::TransferFailure);
    }
    from.balance = from.balance - amount;
    to.balance = to.balance + amount;
    Ok(())
}

} // verus!
