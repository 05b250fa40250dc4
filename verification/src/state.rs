//! The escrow record and the expiry policy.
//!
//! One record describes one open deal. A record is timed when its `expiry`
//! field is present: `Some(0)` means "never expires" and `Some(t)` means
//! "cannot be taken at or after ledger time `t`". A record with `expiry`
//! `None` carries no deadline at all and a take never checks one.

use vstd::prelude::*;

use crate::errors::EscrowError;

verus! {

/// System-wide bound on a relative expiry window, in ledger time units.
/// Requesting a window at or above this bound is rejected outright, so no
/// deposit can be locked up arbitrarily far into the future.
pub const MAX_EXPIRY_WINDOW: u64 = 100_000;

/// The persistent description of one open deal.
#[derive(Clone, Copy, Debug)]
pub struct Escrow {
    /// Identity of the depositing party. Immutable after creation.
    pub maker: u64,
    /// Asset kind the maker deposited. Immutable after creation.
    pub maker_token: u64,
    /// Asset kind the taker must supply. Mutable via update.
    pub taker_token: u64,
    /// Quantity of `taker_token` the taker must supply. Mutable via update.
    pub offer_amount: u64,
    /// Maker-chosen disambiguator; `(maker, seed)` keys the record.
    pub seed: u64,
    /// Absolute deadline, if the record is timed. Mutable via update.
    pub expiry: Option<u64>,
    /// Salt discovered when the custody authority address was derived.
    pub auth_bump: u8,
    /// Salt discovered when the vault address was derived.
    pub vault_bump: u8,
    /// Salt discovered when the record address was derived.
    pub escrow_bump: u8,
}

/// Whether a record with deadline `expiry` can no longer be taken at ledger
/// time `now`. An absent deadline and the absolute deadline 0 never expire.
pub open spec fn expired_at(expiry: Option<u64>, now: u64) -> bool {
    match expiry {
        Option::None => false,
        Option::Some(e) => e != 0 && e <= now,
    }
}

/// Whether a requested relative window is under the system-wide bound.
/// An absent window asks for no deadline and is always within the bound.
pub open spec fn window_within_bound(window: Option<u64>) -> bool {
    match window {
        Option::None => true,
        Option::Some(w) => w < MAX_EXPIRY_WINDOW,
    }
}

/// The absolute deadline that a relative window requested at ledger time
/// `now` converts to: no deadline stays no deadline, a zero window means
/// "never expires", and a positive window ends `window` units after `now`.
pub open spec fn absolute_expiry(window: Option<u64>, now: u64) -> Option<u64> {
    match window {
        Option::None => Option::None,
        Option::Some(w) => if w == 0 {
            Option::Some(0u64)
        } else {
            Option::Some((now + w) as u64)
        },
    }
}

impl Escrow {
    /// Checks the record's deadline against the current ledger time.
    /// Fails exactly when the record is timed, has a nonzero deadline, and
    /// that deadline has been reached.
    pub fn check_expiry(&self, now: u64) -> (r: Result<(), EscrowError>)
        ensures
            r is Ok <==> !expired_at(self.expiry, now),
            r matches Err(e) ==> e == EscrowError::Expired,
    {
        match self.expiry {
            Option::None => Ok(()),
            Option::Some(e) => if e != 0 && e <= now {
                Err(EscrowError::Expired)
            } else {
                Ok(())
            },
        }
    }

    /// Converts a relative window into an absolute deadline as of ledger
    /// time `now` and stores it. Each call recomputes from the current time;
    /// it never extends an earlier deadline. Fails, leaving the record
    /// unchanged, exactly when the window reaches the system-wide bound.
    pub fn set_expiry_relative(&mut self, window: Option<u64>, now: u64) -> (r: Result<
        (),
        EscrowError,
    >)
        requires
            now + MAX_EXPIRY_WINDOW <= u64::MAX,
        ensures
            r is Ok <==> window_within_bound(window),
            r is Ok ==> *final(self) == (Escrow { expiry: absolute_expiry(window, now), ..*old(
                self,
            ) }),
            r matches Err(e) ==> *final(self) == *old(self) && e == EscrowError::MaxExpiryExceeded,
    {
        match window {
            Option::None => {
                self.set_expiry_absolute(None);
                Ok(())
            },
            Option::Some(w) => {
                if w >= MAX_EXPIRY_WINDOW {
                    return Err(EscrowError::MaxExpiryExceeded);
                }
                if w > 0 {
                    self.set_expiry_absolute(Some(now + w));
                } else {
                    self.set_expiry_absolute(Some(0));
                }
                Ok(())
            },
        }
    }

    /// Stores an absolute deadline as it is given.
    pub fn set_expiry_absolute(&mut self, expiry: Option<u64>)
        ensures
            *final(self) == (Escrow { expiry, ..*old(self) }),
    {
        self.expiry = expiry;
    }
}

} // verus!
