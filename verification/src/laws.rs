//! Protocol-wide laws, proved over the operations' result functions.
//!
//! Conservation of value is stated directly on the operations themselves:
//! `make`, `refund` and `take` each ensure that the balances they touch
//! only move between accounts, never appear or vanish. The laws here
//! relate several operations, or all callers at once.

use vstd::prelude::*;

use crate::derivation::DerivedAuthority;
use crate::errors::EscrowError;
use crate::make::Make;
use crate::make::make_result;
use crate::refund::Refund;
use crate::refund::refund_result;
use crate::state::MAX_EXPIRY_WINDOW;
use crate::state::absolute_expiry;
use crate::store::EscrowStore;
use crate::store::deal_is;
use crate::store::key_index;
use crate::store::store_has;
use crate::store::store_wf;
use crate::take::Take;
use crate::take::take_result;
use crate::update::Update;
use crate::update::update_result;

verus! {

/// Once no open deal is keyed by `(maker, seed)`, every update, refund or
/// take that references that key fails with `RecordNotFound`.
pub proof fn lemma_settled_record_is_gone(s: EscrowStore, maker: u64, seed: u64)
    requires
        !store_has(s, maker, seed),
    ensures
        forall|ctx: Update, expiry: Option<u64>|
            ctx.maker == maker && ctx.seed == seed ==> #[trigger] update_result(s, ctx, expiry)
                == Err::<(), EscrowError>(EscrowError::RecordNotFound),
        forall|ctx: Refund, authority: DerivedAuthority|
            ctx.maker == maker && ctx.seed == seed ==> #[trigger] refund_result(s, ctx, authority)
                == Err::<(), EscrowError>(EscrowError::RecordNotFound),
        forall|ctx: Take, authority: DerivedAuthority, now: u64|
            ctx.maker == maker && ctx.seed == seed ==> #[trigger] take_result(
                s,
                ctx,
                authority,
                now,
            ) == Err::<(), EscrowError>(EscrowError::RecordNotFound),
{
}

/// At most one of take and refund ever settles a record: a successful one
/// leaves a store whose deals are the old deals with the settled one
/// removed, and in that store the key no longer names an open deal, so by
/// `lemma_settled_record_is_gone` every subsequent update, refund or take
/// referencing it fails with `RecordNotFound`.
pub proof fn lemma_single_settlement(pre: EscrowStore, post: EscrowStore, maker: u64, seed: u64)
    requires
        store_wf(pre),
        store_has(pre, maker, seed),
        post.deals@ == pre.deals@.remove(key_index(pre, maker, seed)),
    ensures
        !store_has(post, maker, seed),
        forall|ctx: Update, expiry: Option<u64>|
            ctx.maker == maker && ctx.seed == seed ==> #[trigger] update_result(post, ctx, expiry)
                == Err::<(), EscrowError>(EscrowError::RecordNotFound),
        forall|ctx: Refund, authority: DerivedAuthority|
            ctx.maker == maker && ctx.seed == seed ==> #[trigger] refund_result(
                post,
                ctx,
                authority,
            ) == Err::<(), EscrowError>(EscrowError::RecordNotFound),
        forall|ctx: Take, authority: DerivedAuthority, now: u64|
            ctx.maker == maker && ctx.seed == seed ==> #[trigger] take_result(
                post,
                ctx,
                authority,
                now,
            ) == Err::<(), EscrowError>(EscrowError::RecordNotFound),
{
    let ki = key_index(pre, maker, seed);
    assert(0 <= ki < pre.deals@.len() && deal_is(pre.deals@[ki], maker, seed));
    assert forall|i: int|
        0 <= i < post.deals@.len() implies !deal_is(#[trigger] post.deals@[i], maker, seed) by {
        let oi: int = if i < ki {
            i
        } else {
            i + 1
        };
        assert(post.deals@[i] == pre.deals@[oi]);
        if deal_is(pre.deals@[oi], maker, seed) {
            assert(oi != ki);
            assert(!(pre.deals@[oi].escrow.maker == pre.deals@[ki].escrow.maker
                && pre.deals@[oi].escrow.seed == pre.deals@[ki].escrow.seed));
        }
    }
    lemma_settled_record_is_gone(post, maker, seed);
}

/// Only the maker of a record may amend or cancel it: any other caller
/// gets `AuthorizationFailure`. A take never checks who the taker is: two
/// takes that differ only in the taker's identity return the same result.
pub proof fn lemma_authorization(s: EscrowStore)
    ensures
        forall|ctx: Update, expiry: Option<u64>|
            store_has(s, ctx.maker, ctx.seed) && ctx.caller != ctx.maker
                ==> #[trigger] update_result(s, ctx, expiry) == Err::<(), EscrowError>(
                EscrowError::AuthorizationFailure,
            ),
        forall|ctx: Refund, authority: DerivedAuthority|
            store_has(s, ctx.maker, ctx.seed) && ctx.caller != ctx.maker
                ==> #[trigger] refund_result(s, ctx, authority) == Err::<(), EscrowError>(
                EscrowError::AuthorizationFailure,
            ),
        forall|one: Take, other: Take, authority: DerivedAuthority, now: u64|
            #![trigger take_result(s, one, authority, now), take_result(s, other, authority, now)]
            one.maker == other.maker && one.seed == other.seed && one.taker_ata == other.taker_ata
                && one.taker_receive_ata == other.taker_receive_ata && one.maker_receive_ata
                == other.maker_receive_ata ==> take_result(s, one, authority, now) == take_result(
                s,
                other,
                authority,
                now,
            ),
{
}

/// Expiry is monotone. A record whose deadline was set from window `w` at
/// ledger time `t` fails every take at time `t + w` or later with
/// `Expired` when `w > 0`; a zero window and an absent window never expire.
pub proof fn lemma_expiry_monotonic(
    s: EscrowStore,
    ctx: Take,
    authority: DerivedAuthority,
    t: u64,
    window: Option<u64>,
    now: u64,
)
    requires
        store_has(s, ctx.maker, ctx.seed),
        s.deals@[key_index(s, ctx.maker, ctx.seed)].escrow.expiry == absolute_expiry(window, t),
        window matches Some(w) ==> t + w <= u64::MAX,
    ensures
        (window matches Some(w) && w > 0 && now >= t + w) ==> take_result(s, ctx, authority, now)
            == Err::<(), EscrowError>(EscrowError::Expired),
        (window == Option::Some(0u64) || window is None) ==> take_result(s, ctx, authority, now)
            != Err::<(), EscrowError>(EscrowError::Expired),
{
}

/// The expiry bound is enforced: a make with a window at or above the
/// bound always fails with `MaxExpiryExceeded`, whatever else holds, and
/// an authorized update of an open record does too. The operations
/// themselves ensure that on any failure nothing changes, so no record or
/// vault is left behind.
pub proof fn lemma_bound_enforcement(s: EscrowStore, w: u64)
    requires
        w >= MAX_EXPIRY_WINDOW,
    ensures
        forall|ctx: Make, seed: u64, deposit_amount: u64|
            #[trigger] make_result(s, ctx, seed, deposit_amount, Option::Some(w)) == Err::<
                (),
                EscrowError,
            >(EscrowError::MaxExpiryExceeded),
        forall|ctx: Update|
            store_has(s, ctx.maker, ctx.seed) && ctx.caller == ctx.maker
                ==> #[trigger] update_result(s, ctx, Option::Some(w)) == Err::<(), EscrowError>(
                EscrowError::MaxExpiryExceeded,
            ),
{
}

} // verus!
