use vstd::prelude::*;

verus! {

/// Why an operation was refused. Every rejection is decided before any
/// balance moves, so a returned error always means "nothing changed".
#[derive(Clone, Copy, Debug, PartialEq, Eq)]
pub enum EscrowError {
    /// The record has already been settled by an accept or a cancel.
    NotActive,
    /// The caller is not the party the operation requires, or a supplied
    /// account is not the one the record names.
    Unauthorized,
    /// A supplied account's asset type disagrees with the record's accounts
    /// or with the asset the operation names.
    AssetMismatch,
    /// The custodial authority re-derived from the record does not match the
    /// holding account's owner, or no authority can be derived at all.
    AuthorityMismatch,
    /// The token-transfer service would refuse a leg: the source balance is
    /// short, or the destination balance cannot take the amount.
    TransferFailure,
}

} // verus!
