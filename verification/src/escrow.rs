use vstd::prelude::*;
use crate::Addr;

verus! {

/// The persistent record of one swap: its parties, its terms and whether it
/// is still open. Created once by initialise; closed exactly once by the
/// first of accept or cancel to commit.
#[derive(Clone, Copy, Debug, PartialEq, Eq)]
pub struct Escrow {
    /// The party that opened the swap and supplied asset A.
    pub initialiser: Addr,
    /// The account asset A was drawn from, and where a cancel returns it.
    pub initialiser_token_account: Addr,
    /// The account that receives asset B when a taker accepts.
    pub initialiser_receive_token_account: Addr,
    /// The custodial account holding asset A while the record is active.
    pub vault_account: Addr,
    /// Quantity of asset A escrowed.
    pub amount_a: u64,
    /// Quantity of asset B required to accept.
    pub amount_b: u64,
    /// Disambiguation byte stored at creation; re-used to re-derive the
    /// custodial authority at every later operation.
    pub bump: u8,
    /// True from creation until the first successful accept or cancel.
    pub is_active: bool,
}

} // verus!
