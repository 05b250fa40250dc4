//! The update operation: amend the terms of an open record.

use vstd::prelude::*;

use crate::errors::EscrowError;
use crate::state::Escrow;
use crate::state::MAX_EXPIRY_WINDOW;
use crate::state::absolute_expiry;
use crate::state::window_within_bound;
use crate::store::Deal;
use crate::store::EscrowStore;
use crate::store::deal_wf;
use crate::store::key_index;
use crate::store::lemma_key_index_unique;
use crate::store::store_has;
use crate::store::store_wf;

verus! {

/// Who asks for the amendment and which record it targets.
#[derive(Clone, Copy, Debug)]
pub struct Update {
    /// The identity the ledger asserted as signer of this call.
    pub caller: u64,
    /// The maker of the targeted record.
    pub maker: u64,
    /// The seed of the targeted record.
    pub seed: u64,
    /// The asset kind the maker now asks for.
    pub new_taker_token: u64,
}

/// What an update returns: the record must exist, only its maker may amend
/// it, and the new expiry window must be under the system-wide bound.
pub open spec fn update_result(s: EscrowStore, ctx: Update, expiry: Option<u64>) -> Result<
    (),
    EscrowError,
> {
    if !store_has(s, ctx.maker, ctx.seed) {
        Err(EscrowError::RecordNotFound)
    } else if ctx.caller != ctx.maker {
        Err(EscrowError::AuthorizationFailure)
    } else if !window_within_bound(expiry) {
        Err(EscrowError::MaxExpiryExceeded)
    } else {
        Ok(())
    }
}

impl Update {
    /// Amends the requested asset kind, the offer amount, and the deadline
    /// of the open record keyed by `(maker, seed)`, in place. The deadline
    /// is recomputed from the current ledger time `now`; it never extends
    /// an earlier deadline. On any failure the store is left unchanged;
    /// the maker, the offered asset, the deposit and the salts never
    /// change.
    pub fn update(
        &self,
        store: &mut EscrowStore,
        offer_amount: u64,
        expiry: Option<u64>,
        now: u64,
    ) -> (r: Result<(), EscrowError>)
        requires
            store_wf(*old(store)),
            now + MAX_EXPIRY_WINDOW <= u64::MAX,
        ensures
            store_wf(*final(store)),
            final(store).program_id == old(store).program_id,
            r == update_result(*old(store), *self, expiry),
            r matches Err(_) ==> *final(store) == *old(store),
            r is Ok ==> ({
                let ki = key_index(*old(store), self.maker, self.seed);
                let od = old(store).deals@[ki];
                final(store).deals@ == old(store).deals@.update(
                    ki,
                    (Deal {
                        escrow: (Escrow {
                            taker_token: self.new_taker_token,
                            offer_amount,
                            expiry: absolute_expiry(expiry, now),
                            ..od.escrow
                        }),
                        ..od
                    }),
                )
            }),
    {
        let idx = match store.find(self.maker, self.seed) {
            Option::Some(i) => i,
            Option::None => {
                return Err(EscrowError::RecordNotFound);
            },
        };
        if self.caller != self.maker {
            return Err(EscrowError::AuthorizationFailure);
        }
        match expiry {
            Option::Some(w) => {
                if w >= MAX_EXPIRY_WINDOW {
                    return Err(EscrowError::MaxExpiryExceeded);
                }
            },
            Option::None => {},
        }
        proof {
            lemma_key_index_unique(*store, self.maker, self.seed, idx as int);
        }
        let ghost old_deals = store.deals@;
        let deal = store.deal_at(idx);
        deal.escrow.taker_token = self.new_taker_token;
        deal.escrow.offer_amount = offer_amount;
        match deal.escrow.set_expiry_relative(expiry, now) {
            Ok(()) => {},
            Err(_) => {
                proof {
                    assert(false);
                }
                return Err(EscrowError::MaxExpiryExceeded);
            },
        }
        proof {
            assert forall|i: int|
                0 <= i < store.deals@.len() implies deal_wf(
                #[trigger] store.deals@[i],
                store.program_id@,
            ) by {
                if i != idx {
                    assert(store.deals@[i] == old_deals[i]);
                }
            }
            assert forall|i: int, j: int|
                0 <= i < store.deals@.len() && 0 <= j < store.deals@.len() && i != j implies !(
            (#[trigger] store.deals@[i]).escrow.maker == (#[trigger] store.deals@[j]).escrow.maker
                && store.deals@[i].escrow.seed == store.deals@[j].escrow.seed) by {
                assert(store.deals@[i].escrow.maker == old_deals[i].escrow.maker);
                assert(store.deals@[i].escrow.seed == old_deals[i].escrow.seed);
                assert(store.deals@[j].escrow.maker == old_deals[j].escrow.maker);
                assert(store.deals@[j].escrow.seed == old_deals[j].escrow.seed);
            }
        }
        Ok(())
    }
}

/// Amends the terms of an open record; see [`Update::update`], which does
/// the work.
pub fn update(
    store: &mut EscrowStore,
    ctx: &Update,
    offer_amount: u64,
    expiry: Option<u64>,
    now: u64,
) -> (r: Result<(), EscrowError>)
    requires
        store_wf(*old(store)),
        now + MAX_EXPIRY_WINDOW <= u64::MAX,
    ensures
        store_wf(*final(store)),
        final(store).program_id == old(store).program_id,
        r == update_result(*old(store), *ctx, expiry),
        r matches Err(_) ==> *final(store) == *old(store),
        r is Ok ==> ({
            let ki = key_index(*old(store), ctx.maker, ctx.seed);
            let od = old(store).deals@[ki];
            final(store).deals@ == old(store).deals@.update(
                ki,
                (Deal {
                    escrow: (Escrow {
                        taker_token: ctx.new_taker_token,
                        offer_amount,
                        expiry: absolute_expiry(expiry, now),
                        ..od.escrow
                    }),
                    ..od
                }),
            )
        }),
{
    ctx.update(store, offer_amount, expiry, now)
}

} // verus!
