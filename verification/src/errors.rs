//! Failure kinds of the escrow operations.

use vstd::prelude::*;

verus! {

/// Every way an escrow operation can fail. Each operation either commits all
/// of its effects or returns one of these and leaves every account unchanged.
#[derive(Clone, Copy, Debug, PartialEq, Eq, Structural)]
pub enum EscrowError {
    /// No salt could be derived for the custody authority address.
    AuthBumpError,
    /// No salt could be derived for the vault address.
    VaultBumpError,
    /// No salt could be derived for the record address, or the record key
    /// `(maker, seed)` is already in use by an open record.
    EscrowBumpError,
    /// A requested expiry window reaches the system-wide bound.
    MaxExpiryExceeded,
    /// A take was attempted at or after the record's deadline.
    Expired,
    /// The caller is not the maker of the record.
    AuthorizationFailure,
    /// A party cannot cover a required transfer.
    InsufficientFunds,
    /// No open record matches the given `(maker, seed)` key.
    RecordNotFound,
    /// A derived address or presented authority does not match the record's
    /// stored salts, or an account holds the wrong asset type.
    AddressMismatch,
}

} // verus!
