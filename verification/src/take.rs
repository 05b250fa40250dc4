//! The take operation: a taker satisfies the offer and unlocks the deposit.

use vstd::prelude::*;

use crate::derivation::DerivedAuthority;
use crate::derivation::authority_matches;
use crate::derivation::bytes_eq;
use crate::derivation::derive_authority;
use crate::errors::EscrowError;
use crate::state::expired_at;
use crate::store::EscrowStore;
use crate::store::deal_is;
use crate::store::deal_wf;
use crate::store::key_index;
use crate::store::lemma_key_index_unique;
use crate::store::store_has;
use crate::store::store_wf;
use crate::token::TokenAccount;
use crate::token::transfer;

verus! {

/// The parties and accounts a take touches. Any identity may take an open
/// offer; no capability beyond funds is required of the taker.
#[derive(Clone, Copy, Debug)]
pub struct Take {
    /// Whoever accepts the offer; the ledger has asserted this signer.
    pub taker: u64,
    /// The maker of the targeted record.
    pub maker: u64,
    /// The seed of the targeted record.
    pub seed: u64,
    /// The taker's holding account for the requested asset, debited.
    pub taker_ata: TokenAccount,
    /// The taker's holding account for the offered asset, credited.
    pub taker_receive_ata: TokenAccount,
    /// The maker's holding account for the requested asset, credited.
    pub maker_receive_ata: TokenAccount,
}

/// What a take returns: the record must exist and not be expired, the
/// presented authority must re-derive, the three holding accounts must
/// carry the record's asset kinds, and the taker must cover the offer
/// amount. The taker's identity is never checked.
pub open spec fn take_result(
    s: EscrowStore,
    ctx: Take,
    authority: DerivedAuthority,
    now: u64,
) -> Result<(), EscrowError> {
    if !store_has(s, ctx.maker, ctx.seed) {
        Err(EscrowError::RecordNotFound)
    } else {
        let d = s.deals@[key_index(s, ctx.maker, ctx.seed)];
        if expired_at(d.escrow.expiry, now) {
            Err(EscrowError::Expired)
        } else if !authority_matches(authority, s.program_id@) {
            Err(EscrowError::AddressMismatch)
        } else if ctx.taker_ata.mint != d.escrow.taker_token || ctx.maker_receive_ata.mint
            != d.escrow.taker_token || ctx.taker_receive_ata.mint != d.escrow.maker_token {
            Err(EscrowError::AddressMismatch)
        } else if ctx.taker_ata.amount < d.escrow.offer_amount {
            Err(EscrowError::InsufficientFunds)
        } else {
            Ok(())
        }
    }
}

impl Take {
    /// Transfers the offer amount of the requested asset from the taker's
    /// holding account to the maker's receiving account.
    pub fn deposit_to_maker(&mut self, offer_amount: u64) -> (r: Result<(), EscrowError>)
        requires
            old(self).maker_receive_ata.amount + offer_amount <= u64::MAX,
        ensures
            final(self).taker == old(self).taker,
            final(self).maker == old(self).maker,
            final(self).seed == old(self).seed,
            final(self).taker_receive_ata == old(self).taker_receive_ata,
            final(self).taker_ata.mint == old(self).taker_ata.mint,
            final(self).maker_receive_ata.mint == old(self).maker_receive_ata.mint,
            r is Ok <==> old(self).taker_ata.mint == old(self).maker_receive_ata.mint
                && offer_amount <= old(self).taker_ata.amount,
            r is Ok ==> final(self).taker_ata.amount == old(self).taker_ata.amount - offer_amount
                && final(self).maker_receive_ata.amount == old(self).maker_receive_ata.amount
                + offer_amount,
            r matches Err(e) ==> *final(self) == *old(self) && (if old(self).taker_ata.mint
                != old(self).maker_receive_ata.mint {
                e == EscrowError::AddressMismatch
            } else {
                e == EscrowError::InsufficientFunds
            }),
            final(self).taker_ata.amount + final(self).maker_receive_ata.amount == old(
                self,
            ).taker_ata.amount + old(self).maker_receive_ata.amount,
    {
        let amount = offer_amount;
        match transfer(&mut self.taker_ata, &mut self.maker_receive_ata, amount) {
            Ok(()) => Ok(()),
            Err(e) => Err(e),
        }
    }

    /// Releases the vault's entire current balance — not a cached amount —
    /// to the taker's receiving account, authorized by the derived
    /// authority, which is verified by re-running the derivation.
    pub fn empty_vault_to_taker(
        &mut self,
        vault: &mut TokenAccount,
        authority: &DerivedAuthority,
        program_id: &[u8; 32],
    ) -> (r: Result<(), EscrowError>)
        requires
            old(self).taker_receive_ata.amount + old(vault).amount <= u64::MAX,
        ensures
            final(self).taker == old(self).taker,
            final(self).maker == old(self).maker,
            final(self).seed == old(self).seed,
            final(self).taker_ata == old(self).taker_ata,
            final(self).maker_receive_ata == old(self).maker_receive_ata,
            final(self).taker_receive_ata.mint == old(self).taker_receive_ata.mint,
            final(vault).mint == old(vault).mint,
            r is Ok <==> authority_matches(*authority, program_id@) && old(vault).mint == old(
                self,
            ).taker_receive_ata.mint,
            r is Ok ==> final(vault).amount == 0 && final(self).taker_receive_ata.amount == old(
                self,
            ).taker_receive_ata.amount + old(vault).amount,
            r matches Err(e) ==> *final(self) == *old(self) && *final(vault) == *old(vault) && e
                == EscrowError::AddressMismatch,
            final(self).taker_receive_ata.amount + final(vault).amount == old(
                self,
            ).taker_receive_ata.amount + old(vault).amount,
    {
        let derived = match derive_authority(program_id) {
            Ok(a) => a,
            Err(_) => {
                return Err(EscrowError::AddressMismatch);
            },
        };
        if !bytes_eq(&derived.addr, &authority.addr) {
            return Err(EscrowError::AddressMismatch);
        }
        if derived.salt != authority.salt {
            return Err(EscrowError::AddressMismatch);
        }
        let amount = vault.amount;
        match transfer(vault, &mut self.taker_receive_ata, amount) {
            Ok(()) => Ok(()),
            Err(e) => {
                proof {
                    assert(e == EscrowError::AddressMismatch);
                }
                Err(EscrowError::AddressMismatch)
            },
        }
    }

    /// Destroys the already emptied vault and retires its record, in the
    /// same atomic batch, authorized by the derived authority. After this
    /// the pair `(maker, seed)` no longer names an open deal.
    pub fn close_vault(&self, store: &mut EscrowStore, authority: &DerivedAuthority) -> (r: Result<
        (),
        EscrowError,
    >)
        requires
            store_wf(*old(store)),
            store_has(*old(store), self.maker, self.seed) ==> old(store).deals@[key_index(
                *old(store),
                self.maker,
                self.seed,
            )].vault.amount == 0,
        ensures
            store_wf(*final(store)),
            final(store).program_id == old(store).program_id,
            r is Ok <==> store_has(*old(store), self.maker, self.seed) && authority_matches(
                *authority,
                old(store).program_id@,
            ),
            r matches Err(_) ==> *final(store) == *old(store),
            r matches Err(e) ==> (if !store_has(*old(store), self.maker, self.seed) {
                e == EscrowError::RecordNotFound
            } else {
                e == EscrowError::AddressMismatch
            }),
            r is Ok ==> final(store).deals@ == old(store).deals@.remove(
                key_index(*old(store), self.maker, self.seed),
            ) && !store_has(*final(store), self.maker, self.seed),
    {
        let idx = match store.find(self.maker, self.seed) {
            Option::Some(i) => i,
            Option::None => {
                return Err(EscrowError::RecordNotFound);
            },
        };
        let derived = match derive_authority(&store.program_id) {
            Ok(a) => a,
            Err(_) => {
                return Err(EscrowError::AddressMismatch);
            },
        };
        if !bytes_eq(&derived.addr, &authority.addr) {
            return Err(EscrowError::AddressMismatch);
        }
        if derived.salt != authority.salt {
            return Err(EscrowError::AddressMismatch);
        }
        proof {
            lemma_key_index_unique(*store, self.maker, self.seed, idx as int);
        }
        let ghost old_deals = store.deals@;
        let _ = store.deals.remove(idx);
        proof {
            assert forall|i: int|
                0 <= i < store.deals@.len() implies deal_wf(
                #[trigger] store.deals@[i],
                store.program_id@,
            ) by {
                if i < idx {
                    assert(store.deals@[i] == old_deals[i]);
                } else {
                    assert(store.deals@[i] == old_deals[i + 1]);
                }
            }
            assert forall|i: int, j: int|
                0 <= i < store.deals@.len() && 0 <= j < store.deals@.len() && i != j implies !(
            (#[trigger] store.deals@[i]).escrow.maker == (#[trigger] store.deals@[j]).escrow.maker
                && store.deals@[i].escrow.seed == store.deals@[j].escrow.seed) by {
                let oi: int = if i < idx {
                    i
                } else {
                    i + 1
                };
                let oj: int = if j < idx {
                    j
                } else {
                    j + 1
                };
                assert(store.deals@[i] == old_deals[oi]);
                assert(store.deals@[j] == old_deals[oj]);
            }
            assert forall|i: int|
                0 <= i < store.deals@.len() implies !deal_is(
                #[trigger] store.deals@[i],
                self.maker,
                self.seed,
            ) by {
                let oi: int = if i < idx {
                    i
                } else {
                    i + 1
                };
                assert(store.deals@[i] == old_deals[oi]);
                if deal_is(old_deals[oi], self.maker, self.seed) {
                    assert(oi != idx);
                    assert(!(old_deals[oi].escrow.maker == old_deals[idx as int].escrow.maker
                        && old_deals[oi].escrow.seed == old_deals[idx as int].escrow.seed));
                }
            }
        }
        Ok(())
    }
}

/// Accepts the open offer keyed by `(maker, seed)`: checks the deadline,
/// moves the offer amount of the requested asset from the taker to the
/// maker, releases the vault's whole balance to the taker, then destroys
/// the vault and retires the record, all as one atomic batch. On any
/// failure every account is left unchanged.
///
/// On success both assets only moved: the taker's and maker's accounts for
/// the requested asset together hold exactly what they held before, and
/// the taker's receiving account gains exactly the vault's balance. The
/// deal is gone and every later operation naming `(maker, seed)` fails
/// with `RecordNotFound`.
pub fn take(store: &mut EscrowStore, ctx: &mut Take, authority: &DerivedAuthority, now: u64) -> (r:
    Result<(), EscrowError>)
    requires
        store_wf(*old(store)),
        store_has(*old(store), old(ctx).maker, old(ctx).seed) ==> ({
            let d = old(store).deals@[key_index(*old(store), old(ctx).maker, old(ctx).seed)];
            &&& old(ctx).maker_receive_ata.amount + d.escrow.offer_amount <= u64::MAX
            &&& old(ctx).taker_receive_ata.amount + d.vault.amount <= u64::MAX
        }),
    ensures
        store_wf(*final(store)),
        final(store).program_id == old(store).program_id,
        r == take_result(*old(store), *old(ctx), *authority, now),
        r matches Err(_) ==> *final(store) == *old(store) && *final(ctx) == *old(ctx),
        r is Ok ==> ({
            let ki = key_index(*old(store), old(ctx).maker, old(ctx).seed);
            let d = old(store).deals@[ki];
            &&& final(store).deals@ == old(store).deals@.remove(ki)
            &&& !store_has(*final(store), old(ctx).maker, old(ctx).seed)
            &&& final(ctx).taker_ata.amount == old(ctx).taker_ata.amount - d.escrow.offer_amount
            &&& final(ctx).maker_receive_ata.amount == old(ctx).maker_receive_ata.amount
                + d.escrow.offer_amount
            &&& final(ctx).taker_receive_ata.amount == old(ctx).taker_receive_ata.amount
                + d.vault.amount
            &&& final(ctx).taker_ata.amount + final(ctx).maker_receive_ata.amount == old(
                ctx,
            ).taker_ata.amount + old(ctx).maker_receive_ata.amount
            &&& final(ctx).taker_ata.mint == old(ctx).taker_ata.mint
            &&& final(ctx).taker_receive_ata.mint == old(ctx).taker_receive_ata.mint
            &&& final(ctx).maker_receive_ata.mint == old(ctx).maker_receive_ata.mint
            &&& final(ctx).taker == old(ctx).taker
            &&& final(ctx).maker == old(ctx).maker
            &&& final(ctx).seed == old(ctx).seed
        }),
{
    let idx = match store.find(ctx.maker, ctx.seed) {
        Option::Some(i) => i,
        Option::None => {
            return Err(EscrowError::RecordNotFound);
        },
    };
    proof {
        lemma_key_index_unique(*store, ctx.maker, ctx.seed, idx as int);
    }
    let record = store.record_at(idx);
    match record.check_expiry(now) {
        Ok(()) => {},
        Err(e) => {
            return Err(e);
        },
    }
    let pid = store.program_id;
    let derived = match derive_authority(&pid) {
        Ok(a) => a,
        Err(_) => {
            return Err(EscrowError::AddressMismatch);
        },
    };
    if !bytes_eq(&derived.addr, &authority.addr) {
        return Err(EscrowError::AddressMismatch);
    }
    if derived.salt != authority.salt {
        return Err(EscrowError::AddressMismatch);
    }
    if ctx.taker_ata.mint != record.taker_token || ctx.maker_receive_ata.mint
        != record.taker_token || ctx.taker_receive_ata.mint != record.maker_token {
        return Err(EscrowError::AddressMismatch);
    }
    if ctx.taker_ata.amount < record.offer_amount {
        return Err(EscrowError::InsufficientFunds);
    }
    match ctx.deposit_to_maker(record.offer_amount) {
        Ok(()) => {},
        Err(_) => {
            proof {
                assert(false);
            }
            return Err(EscrowError::InsufficientFunds);
        },
    }
    let ghost pre_deals = store.deals@;
    let deal = store.deal_at(idx);
    let emptied = ctx.empty_vault_to_taker(&mut deal.vault, authority, &pid);
    match emptied {
        Ok(()) => {},
        Err(_) => {
            proof {
                assert(false);
            }
            return Err(EscrowError::AddressMismatch);
        },
    }
    proof {
        assert forall|i: int|
            0 <= i < store.deals@.len() implies deal_wf(
            #[trigger] store.deals@[i],
            store.program_id@,
        ) by {
            if i != idx {
                assert(store.deals@[i] == pre_deals[i]);
            } else {
                assert(pre_deals[i].escrow == store.deals@[i].escrow);
            }
        }
        assert forall|i: int, j: int|
            0 <= i < store.deals@.len() && 0 <= j < store.deals@.len() && i != j implies !(
        (#[trigger] store.deals@[i]).escrow.maker == (#[trigger] store.deals@[j]).escrow.maker
            && store.deals@[i].escrow.seed == store.deals@[j].escrow.seed) by {
            assert(store.deals@[i].escrow.maker == pre_deals[i].escrow.maker);
            assert(store.deals@[i].escrow.seed == pre_deals[i].escrow.seed);
            assert(store.deals@[j].escrow.maker == pre_deals[j].escrow.maker);
            assert(store.deals@[j].escrow.seed == pre_deals[j].escrow.seed);
        }
        lemma_key_index_unique(*store, ctx.maker, ctx.seed, idx as int);
    }
    let closed = ctx.close_vault(store, authority);
    match closed {
        Ok(()) => {},
        Err(_) => {
            proof {
                assert(false);
            }
            return Err(EscrowError::AddressMismatch);
        },
    }
    proof {
        assert(store.deals@ =~= old(store).deals@.remove(idx as int));
    }
    Ok(())
}

} // verus!
