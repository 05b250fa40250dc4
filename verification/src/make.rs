//! The make operation: create a record, open its vault, deposit into it.

use vstd::prelude::*;

use crate::derivation::derive_auth_address;
use crate::derivation::derive_escrow_address;
use crate::derivation::derive_vault_address;
use crate::derivation::pda_of;
use crate::derivation::spec_auth_seeds;
use crate::derivation::spec_escrow_seeds;
use crate::derivation::spec_vault_seeds;
use crate::errors::EscrowError;
use crate::state::Escrow;
use crate::state::MAX_EXPIRY_WINDOW;
use crate::state::absolute_expiry;
use crate::state::window_within_bound;
use crate::store::Deal;
use crate::store::EscrowStore;
use crate::store::deal_wf;
use crate::store::store_has;
use crate::store::store_wf;
use crate::token::TokenAccount;
use crate::token::transfer;

verus! {

/// The parties and accounts a make touches: the maker, the maker's holding
/// account for the offered asset, and the two asset kinds of the deal.
#[derive(Clone, Copy, Debug)]
pub struct Make {
    /// The depositing party; the ledger has asserted this signer.
    pub maker: u64,
    /// The maker's holding account for the offered asset.
    pub maker_ata: TokenAccount,
    /// Asset kind the maker deposits.
    pub maker_token: u64,
    /// Asset kind the maker asks for.
    pub taker_token: u64,
}

/// What the derivation steps of record creation yield, in the order the
/// addresses are derived: authority, record, vault, then the expiry window
/// is converted.
pub open spec fn init_result(
    program_id: Seq<u8>,
    maker: u64,
    seed: u64,
    expiry: Option<u64>,
) -> Result<(), EscrowError> {
    if pda_of(spec_auth_seeds(), program_id) is None {
        Err(EscrowError::AuthBumpError)
    } else {
        match pda_of(spec_escrow_seeds(maker, seed), program_id) {
            Option::None => Err(EscrowError::EscrowBumpError),
            Option::Some((escrow_addr, _)) => {
                if pda_of(spec_vault_seeds(escrow_addr), program_id) is None {
                    Err(EscrowError::VaultBumpError)
                } else if !window_within_bound(expiry) {
                    Err(EscrowError::MaxExpiryExceeded)
                } else {
                    Ok(())
                }
            },
        }
    }
}

/// What a make returns. The expiry bound is checked before anything else,
/// so an oversized window always fails with `MaxExpiryExceeded`; then a key
/// reuse fails like a failed record derivation; then the three derivations;
/// then the deposit account's asset kind; then the maker's funds.
pub open spec fn make_result(
    s: EscrowStore,
    ctx: Make,
    seed: u64,
    deposit_amount: u64,
    expiry: Option<u64>,
) -> Result<(), EscrowError> {
    if !window_within_bound(expiry) {
        Err(EscrowError::MaxExpiryExceeded)
    } else if store_has(s, ctx.maker, seed) {
        Err(EscrowError::EscrowBumpError)
    } else {
        match init_result(s.program_id@, ctx.maker, seed, expiry) {
            Err(e) => Err(e),
            Ok(_) => if ctx.maker_ata.mint != ctx.maker_token {
                Err(EscrowError::AddressMismatch)
            } else if ctx.maker_ata.amount < deposit_amount {
                Err(EscrowError::InsufficientFunds)
            } else {
                Ok(())
            },
        }
    }
}

/// The fields a freshly made deal must carry: a well-formed deal whose
/// record holds the maker's terms, whose deadline is the converted window,
/// and whose vault holds exactly the deposit of the offered asset.
pub open spec fn made_deal(
    d: Deal,
    program_id: Seq<u8>,
    ctx: Make,
    seed: u64,
    deposit_amount: u64,
    offer_amount: u64,
    expiry: Option<u64>,
    now: u64,
) -> bool {
    &&& deal_wf(d, program_id)
    &&& d.escrow.maker == ctx.maker
    &&& d.escrow.maker_token == ctx.maker_token
    &&& d.escrow.taker_token == ctx.taker_token
    &&& d.escrow.offer_amount == offer_amount
    &&& d.escrow.seed == seed
    &&& d.escrow.expiry == absolute_expiry(expiry, now)
    &&& d.vault.mint == ctx.maker_token
    &&& d.vault.amount == deposit_amount
}

impl Make {
    /// Derives the three addresses of a new deal, persists the discovered
    /// salts in a fresh record, converts the expiry window, and opens the
    /// vault with a zero balance. Nothing is deposited yet.
    pub fn init(
        &self,
        program_id: &[u8; 32],
        seed: u64,
        offer_amount: u64,
        expiry: Option<u64>,
        now: u64,
    ) -> (r: Result<Deal, EscrowError>)
        requires
            now + MAX_EXPIRY_WINDOW <= u64::MAX,
        ensures
            r is Ok <==> init_result(program_id@, self.maker, seed, expiry) is Ok,
            r matches Err(e) ==> Err::<(), EscrowError>(e) == init_result(
                program_id@,
                self.maker,
                seed,
                expiry,
            ),
            r matches Ok(d) ==> made_deal(
                d,
                program_id@,
                *self,
                seed,
                0,
                offer_amount,
                expiry,
                now,
            ),
    {
        let (auth_addr, auth_bump) = match derive_auth_address(program_id) {
            Option::Some(p) => p,
            Option::None => {
                return Err(EscrowError::AuthBumpError);
            },
        };
        let (escrow_addr, escrow_bump) = match derive_escrow_address(
            program_id,
            self.maker,
            seed,
        ) {
            Option::Some(p) => p,
            Option::None => {
                return Err(EscrowError::EscrowBumpError);
            },
        };
        let (vault_addr, vault_bump) = match derive_vault_address(program_id, &escrow_addr) {
            Option::Some(p) => p,
            Option::None => {
                return Err(EscrowError::VaultBumpError);
            },
        };
        let mut escrow = Escrow {
            maker: self.maker,
            maker_token: self.maker_token,
            taker_token: self.taker_token,
            offer_amount,
            seed,
            expiry: None,
            auth_bump,
            vault_bump,
            escrow_bump,
        };
        match escrow.set_expiry_relative(expiry, now) {
            Ok(()) => {},
            Err(e) => {
                return Err(e);
            },
        }
        Ok(
            Deal {
                escrow,
                vault: TokenAccount { mint: self.maker_token, amount: 0 },
                escrow_addr,
                vault_addr,
                auth_addr,
            },
        )
    }

    /// Deposits `amount` of the offered asset from the maker's holding
    /// account into the vault; invoked once, at make.
    pub fn transfer_to_vault(&mut self, vault: &mut TokenAccount, amount: u64) -> (r: Result<
        (),
        EscrowError,
    >)
        requires
            old(vault).amount + amount <= u64::MAX,
        ensures
            final(self).maker == old(self).maker,
            final(self).maker_token == old(self).maker_token,
            final(self).taker_token == old(self).taker_token,
            final(self).maker_ata.mint == old(self).maker_ata.mint,
            final(vault).mint == old(vault).mint,
            r is Ok <==> old(self).maker_ata.mint == old(vault).mint && amount <= old(
                self,
            ).maker_ata.amount,
            r is Ok ==> final(self).maker_ata.amount == old(self).maker_ata.amount - amount
                && final(vault).amount == old(vault).amount + amount,
            r matches Err(e) ==> *final(self) == *old(self) && *final(vault) == *old(vault) && (
            if old(self).maker_ata.mint != old(vault).mint {
                e == EscrowError::AddressMismatch
            } else {
                e == EscrowError::InsufficientFunds
            }),
            final(self).maker_ata.amount + final(vault).amount == old(self).maker_ata.amount + old(
                vault,
            ).amount,
    {
        transfer(&mut self.maker_ata, vault, amount)
    }
}

/// Creates a record keyed by `(maker, seed)`, opens its vault, and moves
/// `deposit_amount` of the offered asset from the maker into the vault, all
/// as one atomic batch: on any failure every account is left unchanged.
///
/// On success the store gains exactly one deal, the new record carries the
/// converted deadline and the discovered salts, and the offered asset only
/// moved: the maker's holding account and the vault together hold exactly
/// what the maker's holding account held before.
pub fn make(
    store: &mut EscrowStore,
    ctx: &mut Make,
    seed: u64,
    deposit_amount: u64,
    offer_amount: u64,
    expiry: Option<u64>,
    now: u64,
) -> (r: Result<(), EscrowError>)
    requires
        store_wf(*old(store)),
        now + MAX_EXPIRY_WINDOW <= u64::MAX,
    ensures
        store_wf(*final(store)),
        final(store).program_id == old(store).program_id,
        r == make_result(*old(store), *old(ctx), seed, deposit_amount, expiry),
        r matches Err(_) ==> *final(store) == *old(store) && *final(ctx) == *old(ctx),
        r is Ok ==> ({
            &&& final(store).deals@.len() == old(store).deals@.len() + 1
            &&& final(store).deals@.drop_last() == old(store).deals@
            &&& made_deal(
                final(store).deals@.last(),
                old(store).program_id@,
                *old(ctx),
                seed,
                deposit_amount,
                offer_amount,
                expiry,
                now,
            )
            &&& store_has(*final(store), old(ctx).maker, seed)
            &&& final(ctx).maker == old(ctx).maker
            &&& final(ctx).maker_token == old(ctx).maker_token
            &&& final(ctx).taker_token == old(ctx).taker_token
            &&& final(ctx).maker_ata.mint == old(ctx).maker_ata.mint
            &&& final(ctx).maker_ata.amount + final(store).deals@.last().vault.amount == old(
                ctx,
            ).maker_ata.amount
        }),
{
    match expiry {
        Option::Some(w) => {
            if w >= MAX_EXPIRY_WINDOW {
                return Err(EscrowError::MaxExpiryExceeded);
            }
        },
        Option::None => {},
    }
    match store.find(ctx.maker, seed) {
        Option::Some(_) => {
            return Err(EscrowError::EscrowBumpError);
        },
        Option::None => {},
    }
    let mut deal = match ctx.init(&store.program_id, seed, offer_amount, expiry, now) {
        Ok(d) => d,
        Err(e) => {
            return Err(e);
        },
    };
    match ctx.transfer_to_vault(&mut deal.vault, deposit_amount) {
        Ok(()) => {},
        Err(e) => {
            return Err(e);
        },
    }
    let ghost old_deals = store.deals@;
    store.deals.push(deal);
    proof {
        assert(store.deals@.drop_last() =~= old_deals);
        assert forall|i: int|
            0 <= i < store.deals@.len() implies deal_wf(
            #[trigger] store.deals@[i],
            store.program_id@,
        ) by {
            if i < old_deals.len() {
                assert(store.deals@[i] == old_deals[i]);
            }
        }
        assert forall|i: int, j: int|
            0 <= i < store.deals@.len() && 0 <= j < store.deals@.len() && i != j implies !(
        (#[trigger] store.deals@[i]).escrow.maker == (#[trigger] store.deals@[j]).escrow.maker
            && store.deals@[i].escrow.seed == store.deals@[j].escrow.seed) by {
            if i < old_deals.len() && j < old_deals.len() {
            } else if i < old_deals.len() {
                assert(!crate::store::deal_is(old_deals[i], old(ctx).maker, seed));
            } else if j < old_deals.len() {
                assert(!crate::store::deal_is(old_deals[j], old(ctx).maker, seed));
            }
        }
        assert(crate::store::deal_is(
            store.deals@[store.deals@.len() - 1],
            old(ctx).maker,
            seed,
        ));
    }
    Ok(())
}

} // verus!
