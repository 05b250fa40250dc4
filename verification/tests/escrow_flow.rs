use escrow::DerivedAuthority;
use escrow::EscrowStore;
use escrow::Make;
use escrow::Refund;
use escrow::Take;
use escrow::TokenAccount;
use escrow::Update;
use escrow::derive_authority;
use escrow::make;
use escrow::refund;
use escrow::take;
use escrow::update;
use escrow::EscrowError;

const ASSET_A: u64 = 1;
const ASSET_B: u64 = 2;
const MAKER: u64 = 11;
const TAKER: u64 = 22;

fn program_id() -> [u8; 32] {
    [7u8; 32]
}

#[test]
fn take_flow_without_expiry() {
    let pid = program_id();
    let mut store = EscrowStore::new(pid);
    let mut maker_ctx = Make {
        maker: MAKER,
        maker_ata: TokenAccount { mint: ASSET_A, amount: 100 },
        maker_token: ASSET_A,
        taker_token: ASSET_B,
    };
    let r = make(&mut store, &mut maker_ctx, 7, 100, 50, None, 0);
    assert_eq!(r, Ok(()));
    assert_eq!(store.open_deals(), 1);
    assert_eq!(store.deals[0].vault.amount, 100);
    assert_eq!(store.deals[0].vault.mint, ASSET_A);
    assert_eq!(store.deals[0].escrow.offer_amount, 50);
    assert_eq!(store.deals[0].escrow.expiry, None);
    assert_eq!(maker_ctx.maker_ata.amount, 0);

    let authority = derive_authority(&pid).unwrap();
    let mut taker_ctx = Take {
        taker: TAKER,
        maker: MAKER,
        seed: 7,
        taker_ata: TokenAccount { mint: ASSET_B, amount: 50 },
        taker_receive_ata: TokenAccount { mint: ASSET_A, amount: 0 },
        maker_receive_ata: TokenAccount { mint: ASSET_B, amount: 0 },
    };
    let r = take(&mut store, &mut taker_ctx, &authority, 1_000);
    assert_eq!(r, Ok(()));
    assert_eq!(taker_ctx.taker_ata.amount, 0);
    assert_eq!(taker_ctx.maker_receive_ata.amount, 50);
    assert_eq!(taker_ctx.taker_receive_ata.amount, 100);
    assert_eq!(store.open_deals(), 0);

    // the record is gone: settling a second time fails
    let mut maker_refund = Refund {
        caller: MAKER,
        maker: MAKER,
        seed: 7,
        maker_ata: TokenAccount { mint: ASSET_A, amount: 0 },
    };
    let r = refund(&mut store, &mut maker_refund, &authority);
    assert_eq!(r, Err(EscrowError::RecordNotFound));
    let r = take(&mut store, &mut taker_ctx, &authority, 1_000);
    assert_eq!(r, Err(EscrowError::RecordNotFound));
}

#[test]
fn refund_after_expiry() {
    let pid = program_id();
    let mut store = EscrowStore::new(pid);
    let mut maker_ctx = Make {
        maker: MAKER,
        maker_ata: TokenAccount { mint: ASSET_A, amount: 100 },
        maker_token: ASSET_A,
        taker_token: ASSET_B,
    };
    let r = make(&mut store, &mut maker_ctx, 7, 100, 50, Some(10), 0);
    assert_eq!(r, Ok(()));
    assert_eq!(store.deals[0].escrow.expiry, Some(10));

    // after 10 time units the offer can no longer be taken
    let authority = derive_authority(&pid).unwrap();
    let mut taker_ctx = Take {
        taker: TAKER,
        maker: MAKER,
        seed: 7,
        taker_ata: TokenAccount { mint: ASSET_B, amount: 50 },
        taker_receive_ata: TokenAccount { mint: ASSET_A, amount: 0 },
        maker_receive_ata: TokenAccount { mint: ASSET_B, amount: 0 },
    };
    let r = take(&mut store, &mut taker_ctx, &authority, 10);
    assert_eq!(r, Err(EscrowError::Expired));
    assert_eq!(taker_ctx.taker_ata.amount, 50);
    assert_eq!(store.open_deals(), 1);

    // the maker may still reclaim the deposit
    let mut maker_refund = Refund {
        caller: MAKER,
        maker: MAKER,
        seed: 7,
        maker_ata: TokenAccount { mint: ASSET_A, amount: 0 },
    };
    let r = refund(&mut store, &mut maker_refund, &authority);
    assert_eq!(r, Ok(()));
    assert_eq!(maker_refund.maker_ata.amount, 100);
    assert_eq!(store.open_deals(), 0);
}

#[test]
fn take_just_before_expiry_succeeds() {
    let pid = program_id();
    let mut store = EscrowStore::new(pid);
    let mut maker_ctx = Make {
        maker: MAKER,
        maker_ata: TokenAccount { mint: ASSET_A, amount: 100 },
        maker_token: ASSET_A,
        taker_token: ASSET_B,
    };
    assert_eq!(make(&mut store, &mut maker_ctx, 7, 100, 50, Some(10), 5), Ok(()));
    assert_eq!(store.deals[0].escrow.expiry, Some(15));

    let authority = derive_authority(&pid).unwrap();
    let mut taker_ctx = Take {
        taker: TAKER,
        maker: MAKER,
        seed: 7,
        taker_ata: TokenAccount { mint: ASSET_B, amount: 50 },
        taker_receive_ata: TokenAccount { mint: ASSET_A, amount: 0 },
        maker_receive_ata: TokenAccount { mint: ASSET_B, amount: 0 },
    };
    let r = take(&mut store, &mut taker_ctx, &authority, 14);
    assert_eq!(r, Ok(()));
    assert_eq!(taker_ctx.taker_receive_ata.amount, 100);
}

#[test]
fn zero_window_never_expires() {
    let pid = program_id();
    let mut store = EscrowStore::new(pid);
    let mut maker_ctx = Make {
        maker: MAKER,
        maker_ata: TokenAccount { mint: ASSET_A, amount: 100 },
        maker_token: ASSET_A,
        taker_token: ASSET_B,
    };
    assert_eq!(make(&mut store, &mut maker_ctx, 7, 100, 50, Some(0), 3), Ok(()));
    assert_eq!(store.deals[0].escrow.expiry, Some(0));

    let authority = derive_authority(&pid).unwrap();
    let mut taker_ctx = Take {
        taker: TAKER,
        maker: MAKER,
        seed: 7,
        taker_ata: TokenAccount { mint: ASSET_B, amount: 50 },
        taker_receive_ata: TokenAccount { mint: ASSET_A, amount: 0 },
        maker_receive_ata: TokenAccount { mint: ASSET_B, amount: 0 },
    };
    let r = take(&mut store, &mut taker_ctx, &authority, u64::MAX - 200_000);
    assert_eq!(r, Ok(()));
}

#[test]
fn update_changes_terms_in_place() {
    let pid = program_id();
    let mut store = EscrowStore::new(pid);
    let mut maker_ctx = Make {
        maker: MAKER,
        maker_ata: TokenAccount { mint: ASSET_A, amount: 100 },
        maker_token: ASSET_A,
        taker_token: ASSET_B,
    };
    assert_eq!(make(&mut store, &mut maker_ctx, 7, 100, 50, Some(10), 0), Ok(()));

    let upd = Update { caller: MAKER, maker: MAKER, seed: 7, new_taker_token: 3 };
    let r = update(&mut store, &upd, 75, Some(20), 100);
    assert_eq!(r, Ok(()));
    assert_eq!(store.deals[0].escrow.taker_token, 3);
    assert_eq!(store.deals[0].escrow.offer_amount, 75);
    // the deadline is recomputed from the current time, not extended
    assert_eq!(store.deals[0].escrow.expiry, Some(120));
    // the immutable fields kept their values
    assert_eq!(store.deals[0].escrow.maker, MAKER);
    assert_eq!(store.deals[0].escrow.maker_token, ASSET_A);
    assert_eq!(store.deals[0].escrow.seed, 7);
    assert_eq!(store.deals[0].vault.amount, 100);

    // a take must now meet the amended terms
    let authority = derive_authority(&pid).unwrap();
    let mut taker_ctx = Take {
        taker: TAKER,
        maker: MAKER,
        seed: 7,
        taker_ata: TokenAccount { mint: 3, amount: 75 },
        taker_receive_ata: TokenAccount { mint: ASSET_A, amount: 0 },
        maker_receive_ata: TokenAccount { mint: 3, amount: 0 },
    };
    assert_eq!(take(&mut store, &mut taker_ctx, &authority, 110), Ok(()));
    assert_eq!(taker_ctx.maker_receive_ata.amount, 75);
    assert_eq!(taker_ctx.taker_receive_ata.amount, 100);
}

#[test]
fn authority_is_deterministic_and_derived() {
    let pid = program_id();
    let a1: DerivedAuthority = derive_authority(&pid).unwrap();
    let a2: DerivedAuthority = derive_authority(&pid).unwrap();
    assert_eq!(a1.addr, a2.addr);
    assert_eq!(a1.salt, a2.salt);
    assert_eq!(a1.addr.len(), 32);
    // a different program identity derives a different authority
    let other = derive_authority(&[9u8; 32]).unwrap();
    assert_ne!(a1.addr, other.addr);
}

#[test]
fn derived_addresses_distinguish_records() {
    let pid = program_id();
    let mut store = EscrowStore::new(pid);
    let mut maker_ctx = Make {
        maker: MAKER,
        maker_ata: TokenAccount { mint: ASSET_A, amount: 100 },
        maker_token: ASSET_A,
        taker_token: ASSET_B,
    };
    assert_eq!(make(&mut store, &mut maker_ctx, 7, 40, 50, None, 0), Ok(()));
    assert_eq!(make(&mut store, &mut maker_ctx, 8, 40, 50, None, 0), Ok(()));
    assert_eq!(store.open_deals(), 2);
    assert_ne!(store.deals[0].escrow_addr, store.deals[1].escrow_addr);
    assert_ne!(store.deals[0].vault_addr, store.deals[1].vault_addr);
    assert_ne!(store.deals[0].escrow_addr, store.deals[0].vault_addr);
    assert_eq!(store.deals[0].auth_addr, store.deals[1].auth_addr);
    assert_eq!(store.deals[0].escrow_addr.len(), 32);
}
