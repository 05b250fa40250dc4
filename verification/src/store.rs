//! The escrow record store.
//!
//! One open deal is a record together with its vault: the two are created
//! in the same atomic batch and destroyed in the same atomic batch, so a
//! vault exists exactly as long as its record does. The store keys deals by
//! `(maker, seed)` and keeps the derived addresses consistent with the
//! salts persisted in each record.

use vstd::prelude::*;

use crate::derivation::pda_of;
use crate::derivation::spec_auth_seeds;
use crate::derivation::spec_escrow_seeds;
use crate::derivation::spec_vault_seeds;
use crate::state::Escrow;
use crate::token::TokenAccount;

verus! {

/// One open deal: the record, the vault bound to it, and the addresses the
/// derivation facility discovered for them.
#[derive(Debug)]
pub struct Deal {
    /// The persistent record of the deal.
    pub escrow: Escrow,
    /// The custodial holding account for the maker's deposit.
    pub vault: TokenAccount,
    /// The derived address of the record.
    pub escrow_addr: Vec<u8>,
    /// The derived address of the vault.
    pub vault_addr: Vec<u8>,
    /// The derived address of the custody authority.
    pub auth_addr: Vec<u8>,
}

/// Whether `deal`'s key is `(maker, seed)`.
pub open spec fn deal_is(deal: Deal, maker: u64, seed: u64) -> bool {
    deal.escrow.maker == maker && deal.escrow.seed == seed
}

/// A deal is well formed for `program_id` when its stored addresses and
/// salts are exactly what the derivation facility yields for its key, its
/// vault is bound to its record, and the vault holds the offered asset.
pub open spec fn deal_wf(deal: Deal, program_id: Seq<u8>) -> bool {
    &&& pda_of(spec_auth_seeds(), program_id) == Option::Some(
        (deal.auth_addr@, deal.escrow.auth_bump),
    )
    &&& pda_of(spec_escrow_seeds(deal.escrow.maker, deal.escrow.seed), program_id)
        == Option::Some((deal.escrow_addr@, deal.escrow.escrow_bump))
    &&& pda_of(spec_vault_seeds(deal.escrow_addr@), program_id) == Option::Some(
        (deal.vault_addr@, deal.escrow.vault_bump),
    )
    &&& deal.vault.mint == deal.escrow.maker_token
}

/// All open deals of one deployment, with the program identity the
/// deployment was configured with at startup.
#[derive(Debug)]
pub struct EscrowStore {
    /// The process-wide program identity that every derivation uses.
    pub program_id: [u8; 32],
    /// The open deals.
    pub deals: Vec<Deal>,
}

/// Whether the store holds an open deal keyed by `(maker, seed)`.
pub open spec fn store_has(s: EscrowStore, maker: u64, seed: u64) -> bool {
    exists|i: int| 0 <= i < s.deals@.len() && deal_is(#[trigger] s.deals@[i], maker, seed)
}

/// The index of the open deal keyed by `(maker, seed)`.
pub open spec fn key_index(s: EscrowStore, maker: u64, seed: u64) -> int {
    choose|i: int| 0 <= i < s.deals@.len() && deal_is(#[trigger] s.deals@[i], maker, seed)
}

/// A store is well formed when every deal is well formed and no two open
/// deals share a key.
pub open spec fn store_wf(s: EscrowStore) -> bool {
    &&& forall|i: int|
        0 <= i < s.deals@.len() ==> deal_wf(#[trigger] s.deals@[i], s.program_id@)
    &&& forall|i: int, j: int|
        0 <= i < s.deals@.len() && 0 <= j < s.deals@.len() && i != j ==> !(
        (#[trigger] s.deals@[i]).escrow.maker == (#[trigger] s.deals@[j]).escrow.maker
            && s.deals@[i].escrow.seed == s.deals@[j].escrow.seed)
}

impl EscrowStore {
    /// An empty store for a deployment whose program identity is
    /// `program_id`.
    pub fn new(program_id: [u8; 32]) -> (s: EscrowStore)
        ensures
            s.program_id == program_id,
            s.deals@.len() == 0,
            store_wf(s),
    {
        EscrowStore { program_id, deals: Vec::new() }
    }

    /// How many deals are open.
    pub fn open_deals(&self) -> (n: usize)
        ensures
            n == self.deals@.len(),
    {
        self.deals.len()
    }

    /// Borrows the deal at index `i` for in-place mutation.
    pub fn deal_at(&mut self, i: usize) -> (d: &mut Deal)
        requires
            i < old(self).deals@.len(),
        ensures
            *d == old(self).deals@[i as int],
            final(self).deals@ == old(self).deals@.update(i as int, *final(d)),
            final(self).program_id == old(self).program_id,
    {
        &mut self.deals[i]
    }

    /// Reads the record of the deal at index `i`.
    pub fn record_at(&self, i: usize) -> (e: Escrow)
        requires
            i < self.deals@.len(),
        ensures
            e == self.deals@[i as int].escrow,
    {
        self.deals[i].escrow
    }

    /// Reads the vault balance of the deal at index `i`.
    pub fn vault_amount_at(&self, i: usize) -> (a: u64)
        requires
            i < self.deals@.len(),
        ensures
            a == self.deals@[i as int].vault.amount,
    {
        self.deals[i].vault.amount
    }

    /// Looks up the open deal keyed by `(maker, seed)`.
    pub fn find(&self, maker: u64, seed: u64) -> (r: Option<usize>)
        ensures
            (match r {
                Option::Some(i) => i < self.deals@.len() && deal_is(
                    self.deals@[i as int],
                    maker,
                    seed,
                ),
                Option::None => !store_has(*self, maker, seed),
            }),
    {
        let mut i: usize = 0;
        while i < self.deals.len()
            invariant
                i <= self.deals@.len(),
                forall|j: int| 0 <= j < i ==> !deal_is(#[trigger] self.deals@[j], maker, seed),
            decreases self.deals@.len() - i,
        {
            if self.deals[i].escrow.maker == maker && self.deals[i].escrow.seed == seed {
                return Some(i);
            }
            i = i + 1;
        }
        None
    }
}

/// In a well-formed store the deal `find` returns is the deal at
/// `key_index`: keys are unique, so any two indices with the same key are
/// equal.
pub proof fn lemma_key_index_unique(s: EscrowStore, maker: u64, seed: u64, i: int)
    requires
        store_wf(s),
        0 <= i < s.deals@.len(),
        deal_is(s.deals@[i], maker, seed),
    ensures
        store_has(s, maker, seed),
        key_index(s, maker, seed) == i,
{
    assert(store_has(s, maker, seed));
    let k = key_index(s, maker, seed);
    assert(0 <= k < s.deals@.len() && deal_is(s.deals@[k], maker, seed));
    if k != i {
        assert(!(s.deals@[k].escrow.maker == s.deals@[i].escrow.maker && s.deals@[k].escrow.seed
            == s.deals@[i].escrow.seed));
        assert(false);
    }
}

} // verus!
