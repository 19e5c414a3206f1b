use vstd::prelude::*;
use crate::accept::accept_error;
use crate::accept::accept_ok;
use crate::accept::accept_record_after;
use crate::accept::Accept;
use crate::authority::authority_check;
use crate::cancel::cancel_error;
use crate::cancel::cancel_ok;
use crate::cancel::cancel_record_after;
use crate::cancel::Cancel;
use crate::errors::EscrowError;
use crate::escrow::Escrow;

verus! {

/// A record's `active` flag falls at most once and never rises: neither
/// settlement operation leaves an active record out of an inactive one, and
/// whichever operation succeeds closes the record.
pub proof fn lemma_active_transitions_false_at_most_once(a: Accept, c: Cancel, e: Escrow)
    ensures
        accept_record_after(a, e).is_active ==> e.is_active,
        cancel_record_after(c, e).is_active ==> e.is_active,
        accept_ok(a, e) ==> !accept_record_after(a, e).is_active,
        cancel_ok(c, e) ==> !cancel_record_after(c, e).is_active,
{
}

/// Accept and cancel are mutually exclusive: whichever settles first leaves
/// a record on which the other, and any repeat, is refused as inactive.
pub proof fn lemma_settlement_exclusive(a: Accept, a2: Accept, c: Cancel, c2: Cancel, e: Escrow)
    ensures
        accept_ok(a, e) ==> !cancel_ok(c, accept_record_after(a, e)),
        accept_ok(a, e) ==> cancel_error(c, accept_record_after(a, e)) == EscrowError::NotActive,
        accept_ok(a, e) ==> !accept_ok(a2, accept_record_after(a, e)),
        cancel_ok(c, e) ==> !accept_ok(a, cancel_record_after(c, e)),
        cancel_ok(c, e) ==> accept_error(a, cancel_record_after(c, e)) == EscrowError::NotActive,
        cancel_ok(c, e) ==> !cancel_ok(c2, cancel_record_after(c, e)),
{
}

/// A closed record refuses every further accept or cancel with the
/// inactive-record error, and the refused operation changes nothing: the
/// record transition is the identity, and the operations' contracts return
/// the accounts untouched on every error.
pub proof fn lemma_closed_record_rejects(a: Accept, c: Cancel, e: Escrow)
    requires
        !e.is_active,
    ensures
        !accept_ok(a, e),
        accept_error(a, e) == EscrowError::NotActive,
        accept_record_after(a, e) == e,
        !cancel_ok(c, e),
        cancel_error(c, e) == EscrowError::NotActive,
        cancel_record_after(c, e) == e,
{
}

/// Accept settles exactly when the record is active, the holding account's
/// owner is the authority re-derived from the record, and the taker
/// supplies enough of asset B — given accounts that are the ones the record
/// and the two assets describe, with room for both credits.
pub proof fn lemma_accept_settles_iff(a: Accept, e: Escrow)
    requires
        a.vault_account.key == e.vault_account,
        a.initialiser_receive_token_account.key == e.initialiser_receive_token_account,
        a.taker_token_account.owner == a.taker,
        a.taker_token_account.mint == a.mint_b,
        a.initialiser_receive_token_account.mint == a.mint_b,
        a.vault_account.mint == a.mint_a,
        a.taker_receive_token_account.mint == a.mint_a,
        a.initialiser_receive_token_account.balance + e.amount_b <= u64::MAX,
        a.vault_account.balance >= e.amount_a,
        a.taker_receive_token_account.balance + e.amount_a <= u64::MAX,
    ensures
        accept_ok(a, e) <==> (e.is_active && authority_check(
            a.escrow_key,
            e.bump,
            a.vault_account.owner,
        ) && a.taker_token_account.balance >= e.amount_b),
{
}

/// Cancel settles exactly when the record is active, the caller is the
/// record's initialiser, and the holding account's owner is the authority
/// re-derived from the record — given accounts that are the ones the record
/// and asset A describe, with room for the credit.
pub proof fn lemma_cancel_settles_iff(c: Cancel, e: Escrow)
    requires
        c.initialiser_token_account.key == e.initialiser_token_account,
        c.initialiser_token_account.owner == e.initialiser,
        c.vault_account.key == e.vault_account,
        c.vault_account.mint == c.mint_a,
        c.initialiser_token_account.mint == c.mint_a,
        c.vault_account.balance >= e.amount_a,
        c.initialiser_token_account.balance + e.amount_a <= u64::MAX,
    ensures
        cancel_ok(c, e) <==> (e.is_active && c.initialiser == e.initialiser && authority_check(
            c.escrow_key,
            e.bump,
            c.vault_account.owner,
        )),
{
}

} // verus!
