use vstd::prelude::*;
use crate::Addr;

verus! {

/// Notification emitted when a swap is opened.
#[derive(Clone, Copy, Debug, PartialEq, Eq)]
pub struct EscrowInitialised {
    pub initialiser: Addr,
    pub amount_a: u64,
    pub amount_b: u64,
}

/// Notification emitted when a taker completes a swap.
#[derive(Clone, Copy, Debug, PartialEq, Eq)]
pub struct EscrowAccepted {
    pub taker: Addr,
}

/// Notification emitted when the initialiser reclaims the escrowed asset.
#[derive(Clone, Copy, Debug, PartialEq, Eq)]
pub struct EscrowCancelled {
    pub initialiser: Addr,
    pub escrow_account: Addr,
}

} // verus!
