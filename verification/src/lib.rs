use vstd::prelude::*;

pub mod accept;
pub mod authority;
pub mod cancel;
pub mod errors;
pub mod escrow;
pub mod events;
pub mod initialise;
pub mod lifecycle;
pub mod token;

use crate::accept::accept;
use crate::accept::accept_accounts_after;
use crate::accept::accept_error;
use crate::accept::accept_ok;
use crate::accept::accept_record_after;
use crate::accept::Accept;
use crate::authority::authority_check;
use crate::authority::derived_authority;
use crate::authority::program_id;
use crate::authority::seed_label;
use crate::cancel::cancel;
use crate::cancel::cancel_accounts_after;
use crate::cancel::cancel_error;
use crate::cancel::cancel_ok;
use crate::cancel::cancel_record_after;
use crate::cancel::Cancel;
use crate::errors::EscrowError;
use crate::escrow::Escrow;
use crate::events::EscrowAccepted;
use crate::events::EscrowCancelled;
use crate::events::EscrowInitialised;
use crate::initialise::initialise;
use crate::initialise::initialise_error;
use crate::initialise::initialise_ok;
use crate::initialise::Initialise;
use crate::token::TokenAccount;

verus! {

/// A 32-byte ledger address, the identity of every participant and account.
pub type Addr = [u8; 32];

/// Byte-wise equality of two addresses.
pub fn addr_eq(a: &Addr, b: &Addr) -> (r: bool)
    ensures
        r == (*a == *b),
{
    let mut i: usize = 0;
    while i < 32
        invariant
            0 <= i <= 32,
            forall|j: int| 0 <= j < i ==> a@[j] == b@[j],
        decreases 32 - i,
    {
        if a[i] != b[i] {
            proof {
                assert(a@[i as int] != b@[i as int]);
            }
            return false;
        }
        i += 1;
    }
    proof {
        assert(*a =~= *b);
    }
    true
}

/// Entry point that opens a swap: creates the record and funds the holding
/// account with `amount_a` drawn from the initialiser's own account.
pub fn initialise_escrow(accounts: &mut Initialise, amount_a: u64, amount_b: u64) -> (r: Result<
    (Escrow, EscrowInitialised),
    EscrowError,
>)
    ensures
        r is Ok <==> initialise_ok(*old(accounts), amount_a),
        r is Err ==> *final(accounts) == *old(accounts),
        r is Err ==> r->Err_0 == initialise_error(*old(accounts), amount_a),
        r is Ok ==> ({
            let rec = r->Ok_0.0;
            &&& rec.initialiser == old(accounts).initialiser
            &&& rec.initialiser_token_account == old(accounts).initialiser_token_account.key
            &&& rec.initialiser_receive_token_account
                == old(accounts).initialiser_receive_token_account.key
            &&& rec.vault_account == old(accounts).vault_account.key
            &&& rec.amount_a == amount_a
            &&& rec.amount_b == amount_b
            &&& rec.is_active
            &&& authority_check(
                old(accounts).escrow_key,
                rec.bump,
                final(accounts).vault_account.owner,
            )
            &&& (forall|m: u8|
                m > rec.bump ==> derived_authority(
                    seed_label(),
                    old(accounts).escrow_key@,
                    m,
                    program_id(),
                ) is None)
        }),
        r is Ok ==> r->Ok_0.1 == (EscrowInitialised {
            initialiser: old(accounts).initialiser,
            amount_a,
            amount_b,
        }),
        r is Ok ==> *final(accounts) == (Initialise {
            initialiser_token_account: TokenAccount {
                balance: (old(accounts).initialiser_token_account.balance - amount_a) as u64,
                ..old(accounts).initialiser_token_account
            },
            vault_account: TokenAccount {
                owner: final(accounts).vault_account.owner,
                balance: (old(accounts).vault_account.balance + amount_a) as u64,
                ..old(accounts).vault_account
            },
            ..*old(accounts)
        }),
{
    initialise(accounts, amount_a, amount_b)
}

/// Entry point that completes a swap: asset B moves taker to initialiser,
/// asset A moves holding account to taker, and the record closes.
pub fn accept_escrow(accounts: &mut Accept, escrow: &mut Escrow) -> (r: Result<
    EscrowAccepted,
    EscrowError,
>)
    ensures
        r is Ok <==> accept_ok(*old(accounts), *old(escrow)),
        r is Ok ==> r->Ok_0 == (EscrowAccepted { taker: old(accounts).taker }),
        r is Err ==> r->Err_0 == accept_error(*old(accounts), *old(escrow)),
        *final(accounts) == accept_accounts_after(*old(accounts), *old(escrow)),
        *final(escrow) == accept_record_after(*old(accounts), *old(escrow)),
{
    accept(accounts, escrow)
}

/// Entry point that abandons a swap: the initialiser takes asset A back and
/// the record closes.
pub fn cancel_escrow(accounts: &mut Cancel, escrow: &mut Escrow) -> (r: Result<
    EscrowCancelled,
    EscrowError,
>)
    ensures
        r is Ok <==> cancel_ok(*old(accounts), *old(escrow)),
        r is Ok ==> r->Ok_0 == (EscrowCancelled {
            initialiser: old(accounts).initialiser,
            escrow_account: old(accounts).escrow_key,
        }),
        r is Err ==> r->Err_0 == cancel_error(*old(accounts), *old(escrow)),
        *final(accounts) == cancel_accounts_after(*old(accounts), *old(escrow)),
        *final(escrow) == cancel_record_after(*old(accounts), *old(escrow)),
{
    cancel(accounts, escrow)
}

} // verus!
