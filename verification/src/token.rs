//! Holding accounts and the asset-transfer primitive.
//!
//! A holding account carries a balance of exactly one asset kind. The
//! transfer primitive debits one account and credits another; it is the only
//! way balances move, so the sum of the two balances is preserved by every
//! call, successful or not.

use vstd::prelude::*;

use crate::errors::EscrowError;

verus! {

/// A holding account for one asset kind.
#[derive(Clone, Copy, Debug, PartialEq, Eq, Structural)]
pub struct TokenAccount {
    /// Identifier of the asset kind this account holds.
    pub mint: u64,
    /// Current balance.
    pub amount: u64,
}

/// Moves `amount` of the asset from `from` to `to`.
///
/// Fails with `AddressMismatch` when the two accounts hold different asset
/// kinds, and with `InsufficientFunds` when `from` cannot cover the amount.
/// On failure both accounts are left unchanged.
pub fn transfer(from: &mut TokenAccount, to: &mut TokenAccount, amount: u64) -> (r: Result<
    (),
    EscrowError,
>)
    requires
        old(to).amount + amount <= u64::MAX,
    ensures
        final(from).mint == old(from).mint,
        final(to).mint == old(to).mint,
        r is Ok <==> old(from).mint == old(to).mint && amount <= old(from).amount,
        r is Ok ==> final(from).amount == old(from).amount - amount && final(to).amount == old(
            to,
        ).amount + amount,
        r matches Err(e) ==> *final(from) == *old(from) && *final(to) == *old(to) && (if old(
            from,
        ).mint != old(to).mint {
            e == EscrowError::AddressMismatch
        } else {
            e == EscrowError::InsufficientFunds
        }),
        final(from).amount + final(to).amount == old(from).amount + old(to).amount,
{
    if from.mint != to.mint {
        return Err(EscrowError::AddressMismatch);
    }
    if from.amount < amount {
        return Err(EscrowError::InsufficientFunds);
    }
    from.amount = from.amount - amount;
    to.amount = to.amount + amount;
    Ok(())
}

} // verus!
