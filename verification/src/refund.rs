//! The refund operation: the maker cancels and reclaims the deposit.

use vstd::prelude::*;

use crate::derivation::DerivedAuthority;
use crate::derivation::authority_matches;
use crate::derivation::bytes_eq;
use crate::derivation::derive_authority;
use crate::errors::EscrowError;
use crate::store::EscrowStore;
use crate::store::deal_is;
use crate::store::deal_wf;
use crate::store::key_index;
use crate::store::lemma_key_index_unique;
use crate::store::store_has;
use crate::store::store_wf;
use crate::token::TokenAccount;
use crate::token::transfer;

verus! {

/// Who asks for the refund, which record it targets, and the maker's
/// holding account that takes the deposit back.
#[derive(Clone, Copy, Debug)]
pub struct Refund {
    /// The identity the ledger asserted as signer of this call.
    pub caller: u64,
    /// The maker of the targeted record.
    pub maker: u64,
    /// The seed of the targeted record.
    pub seed: u64,
    /// The maker's holding account for the offered asset.
    pub maker_ata: TokenAccount,
}

/// What a refund returns: the record must exist, only its maker may cancel,
/// the presented authority must re-derive, and the receiving account must
/// hold the offered asset kind. Expiry never matters: the maker may reclaim
/// early or after the deadline alike.
pub open spec fn refund_result(
    s: EscrowStore,
    ctx: Refund,
    authority: DerivedAuthority,
) -> Result<(), EscrowError> {
    if !store_has(s, ctx.maker, ctx.seed) {
        Err(EscrowError::RecordNotFound)
    } else if ctx.caller != ctx.maker {
        Err(EscrowError::AuthorizationFailure)
    } else if !authority_matches(authority, s.program_id@) {
        Err(EscrowError::AddressMismatch)
    } else if ctx.maker_ata.mint != s.deals@[key_index(
        s,
        ctx.maker,
        ctx.seed,
    )].escrow.maker_token {
        Err(EscrowError::AddressMismatch)
    } else {
        Ok(())
    }
}

impl Refund {
    /// Releases the vault's entire current balance — not a cached amount —
    /// to the maker's holding account, authorized by the derived authority,
    /// which is verified by re-running the derivation.
    pub fn empty_vault(
        &mut self,
        vault: &mut TokenAccount,
        authority: &DerivedAuthority,
        program_id: &[u8; 32],
    ) -> (r: Result<(), EscrowError>)
        requires
            old(self).maker_ata.amount + old(vault).amount <= u64::MAX,
        ensures
            final(self).caller == old(self).caller,
            final(self).maker == old(self).maker,
            final(self).seed == old(self).seed,
            final(self).maker_ata.mint == old(self).maker_ata.mint,
            final(vault).mint == old(vault).mint,
            r is Ok <==> authority_matches(*authority, program_id@) && old(vault).mint == old(
                self,
            ).maker_ata.mint,
            r is Ok ==> final(vault).amount == 0 && final(self).maker_ata.amount == old(
                self,
            ).maker_ata.amount + old(vault).amount,
            r matches Err(e) ==> *final(self) == *old(self) && *final(vault) == *old(vault) && e
                == EscrowError::AddressMismatch,
            final(self).maker_ata.amount + final(vault).amount == old(self).maker_ata.amount + old(
                vault,
            ).amount,
    {
        let derived = match derive_authority(program_id) {
            Ok(a) => a,
            Err(_) => {
                return Err(EscrowError::AddressMismatch);
            },
        };
        if !bytes_eq(&derived.addr, &authority.addr) {
            return Err(EscrowError::AddressMismatch);
        }
        if derived.salt != authority.salt {
            return Err(EscrowError::AddressMismatch);
        }
        let amount = vault.amount;
        match transfer(vault, &mut self.maker_ata, amount) {
            Ok(()) => Ok(()),
            Err(e) => {
                proof {
                    assert(e == EscrowError::AddressMismatch);
                }
                Err(EscrowError::AddressMismatch)
            },
        }
    }

    /// Destroys the already emptied vault and retires its record, in the
    /// same atomic batch, authorized by the derived authority. After this
    /// the pair `(maker, seed)` no longer names an open deal.
    pub fn close_vault(&self, store: &mut EscrowStore, authority: &DerivedAuthority) -> (r: Result<
        (),
        EscrowError,
    >)
        requires
            store_wf(*old(store)),
            store_has(*old(store), self.maker, self.seed) ==> old(store).deals@[key_index(
                *old(store),
                self.maker,
                self.seed,
            )].vault.amount == 0,
        ensures
            store_wf(*final(store)),
            final(store).program_id == old(store).program_id,
            r is Ok <==> store_has(*old(store), self.maker, self.seed) && authority_matches(
                *authority,
                old(store).program_id@,
            ),
            r matches Err(_) ==> *final(store) == *old(store),
            r matches Err(e) ==> (if !store_has(*old(store), self.maker, self.seed) {
                e == EscrowError::RecordNotFound
            } else {
                e == EscrowError::AddressMismatch
            }),
            r is Ok ==> final(store).deals@ == old(store).deals@.remove(
                key_index(*old(store), self.maker, self.seed),
            ) && !store_has(*final(store), self.maker, self.seed),
    {
        let idx = match store.find(self.maker, self.seed) {
            Option::Some(i) => i,
            Option::None => {
                return Err(EscrowError::RecordNotFound);
            },
        };
        let derived = match derive_authority(&store.program_id) {
            Ok(a) => a,
            Err(_) => {
                return Err(EscrowError::AddressMismatch);
            },
        };
        if !bytes_eq(&derived.addr, &authority.addr) {
            return Err(EscrowError::AddressMismatch);
        }
        if derived.salt != authority.salt {
            return Err(EscrowError::AddressMismatch);
        }
        proof {
            lemma_key_index_unique(*store, self.maker, self.seed, idx as int);
        }
        let ghost old_deals = store.deals@;
        let _ = store.deals.remove(idx);
        proof {
            assert forall|i: int|
                0 <= i < store.deals@.len() implies deal_wf(
                #[trigger] store.deals@[i],
                store.program_id@,
            ) by {
                if i < idx {
                    assert(store.deals@[i] == old_deals[i]);
                } else {
                    assert(store.deals@[i] == old_deals[i + 1]);
                }
            }
            assert forall|i: int, j: int|
                0 <= i < store.deals@.len() && 0 <= j < store.deals@.len() && i != j implies !(
            (#[trigger] store.deals@[i]).escrow.maker == (#[trigger] store.deals@[j]).escrow.maker
                && store.deals@[i].escrow.seed == store.deals@[j].escrow.seed) by {
                let oi: int = if i < idx {
                    i
                } else {
                    i + 1
                };
                let oj: int = if j < idx {
                    j
                } else {
                    j + 1
                };
                assert(store.deals@[i] == old_deals[oi]);
                assert(store.deals@[j] == old_deals[oj]);
            }
            assert forall|i: int|
                0 <= i < store.deals@.len() implies !deal_is(
                #[trigger] store.deals@[i],
                self.maker,
                self.seed,
            ) by {
                let oi: int = if i < idx {
                    i
                } else {
                    i + 1
                };
                assert(store.deals@[i] == old_deals[oi]);
                if deal_is(old_deals[oi], self.maker, self.seed) {
                    assert(oi != idx);
                    assert(!(old_deals[oi].escrow.maker == old_deals[idx as int].escrow.maker
                        && old_deals[oi].escrow.seed == old_deals[idx as int].escrow.seed));
                }
            }
        }
        Ok(())
    }
}

/// Cancels the open record keyed by `(maker, seed)`: releases the vault's
/// whole balance back to the maker's holding account, then destroys the
/// vault and retires the record, all as one atomic batch. On any failure
/// every account is left unchanged.
///
/// On success the offered asset only moved: the maker's holding account
/// gains exactly the vault's balance, the deal is gone, and every later
/// operation naming `(maker, seed)` fails with `RecordNotFound`.
pub fn refund(store: &mut EscrowStore, ctx: &mut Refund, authority: &DerivedAuthority) -> (r:
    Result<(), EscrowError>)
    requires
        store_wf(*old(store)),
        store_has(*old(store), old(ctx).maker, old(ctx).seed) ==> old(ctx).maker_ata.amount + old(
            store,
        ).deals@[key_index(*old(store), old(ctx).maker, old(ctx).seed)].vault.amount <= u64::MAX,
    ensures
        store_wf(*final(store)),
        final(store).program_id == old(store).program_id,
        r == refund_result(*old(store), *old(ctx), *authority),
        r matches Err(_) ==> *final(store) == *old(store) && *final(ctx) == *old(ctx),
        r is Ok ==> ({
            let ki = key_index(*old(store), old(ctx).maker, old(ctx).seed);
            let vault_balance = old(store).deals@[ki].vault.amount;
            &&& final(store).deals@ == old(store).deals@.remove(ki)
            &&& !store_has(*final(store), old(ctx).maker, old(ctx).seed)
            &&& final(ctx).maker_ata.amount == old(ctx).maker_ata.amount + vault_balance
            &&& final(ctx).maker_ata.mint == old(ctx).maker_ata.mint
            &&& final(ctx).caller == old(ctx).caller
            &&& final(ctx).maker == old(ctx).maker
            &&& final(ctx).seed == old(ctx).seed
        }),
{
    let idx = match store.find(ctx.maker, ctx.seed) {
        Option::Some(i) => i,
        Option::None => {
            return Err(EscrowError::RecordNotFound);
        },
    };
    proof {
        lemma_key_index_unique(*store, ctx.maker, ctx.seed, idx as int);
    }
    if ctx.caller != ctx.maker {
        return Err(EscrowError::AuthorizationFailure);
    }
    let pid = store.program_id;
    let derived = match derive_authority(&pid) {
        Ok(a) => a,
        Err(_) => {
            return Err(EscrowError::AddressMismatch);
        },
    };
    if !bytes_eq(&derived.addr, &authority.addr) {
        return Err(EscrowError::AddressMismatch);
    }
    if derived.salt != authority.salt {
        return Err(EscrowError::AddressMismatch);
    }
    let record = store.record_at(idx);
    if ctx.maker_ata.mint != record.maker_token {
        return Err(EscrowError::AddressMismatch);
    }
    let ghost pre_deals = store.deals@;
    let deal = store.deal_at(idx);
    let emptied = ctx.empty_vault(&mut deal.vault, authority, &pid);
    match emptied {
        Ok(()) => {},
        Err(_) => {
            proof {
                assert(false);
            }
            return Err(EscrowError::AddressMismatch);
        },
    }
    proof {
        assert forall|i: int|
            0 <= i < store.deals@.len() implies deal_wf(
            #[trigger] store.deals@[i],
            store.program_id@,
        ) by {
            if i != idx {
                assert(store.deals@[i] == pre_deals[i]);
            } else {
                assert(pre_deals[i].escrow == store.deals@[i].escrow);
            }
        }
        assert forall|i: int, j: int|
            0 <= i < store.deals@.len() && 0 <= j < store.deals@.len() && i != j implies !(
        (#[trigger] store.deals@[i]).escrow.maker == (#[trigger] store.deals@[j]).escrow.maker
            && store.deals@[i].escrow.seed == store.deals@[j].escrow.seed) by {
            assert(store.deals@[i].escrow.maker == pre_deals[i].escrow.maker);
            assert(store.deals@[i].escrow.seed == pre_deals[i].escrow.seed);
            assert(store.deals@[j].escrow.maker == pre_deals[j].escrow.maker);
            assert(store.deals@[j].escrow.seed == pre_deals[j].escrow.seed);
        }
        lemma_key_index_unique(*store, ctx.maker, ctx.seed, idx as int);
    }
    let closed = ctx.close_vault(store, authority);
    match closed {
        Ok(()) => {},
        Err(_) => {
            proof {
                assert(false);
            }
            return Err(EscrowError::AddressMismatch);
        },
    }
    proof {
        assert(store.deals@ =~= old(store).deals@.remove(idx as int));
    }
    Ok(())
}

} // verus!
