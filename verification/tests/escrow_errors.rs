use escrow::DerivedAuthority;
use escrow::EscrowError;
use escrow::EscrowStore;
use escrow::Make;
use escrow::Refund;
use escrow::Take;
use escrow::TokenAccount;
use escrow::Update;
use escrow::derive_authority;
use escrow::make;
use escrow::refund;
use escrow::take;
use escrow::update;

const ASSET_A: u64 = 1;
const ASSET_B: u64 = 2;
const MAKER: u64 = 11;
const TAKER: u64 = 22;
const STRANGER: u64 = 33;

fn program_id() -> [u8; 32] {
    [7u8; 32]
}

fn open_store() -> (EscrowStore, Make) {
    let mut store = EscrowStore::new(program_id());
    let mut maker_ctx = Make {
        maker: MAKER,
        maker_ata: TokenAccount { mint: ASSET_A, amount: 100 },
        maker_token: ASSET_A,
        taker_token: ASSET_B,
    };
    let r = make(&mut store, &mut maker_ctx, 7, 100, 50, None, 0);
    assert_eq!(r, Ok(()));
    (store, maker_ctx)
}

fn taker_ctx() -> Take {
    Take {
        taker: TAKER,
        maker: MAKER,
        seed: 7,
        taker_ata: TokenAccount { mint: ASSET_B, amount: 50 },
        taker_receive_ata: TokenAccount { mint: ASSET_A, amount: 0 },
        maker_receive_ata: TokenAccount { mint: ASSET_B, amount: 0 },
    }
}

#[test]
fn oversized_window_is_rejected_outright() {
    let mut store = EscrowStore::new(program_id());
    let mut maker_ctx = Make {
        maker: MAKER,
        maker_ata: TokenAccount { mint: ASSET_A, amount: 100 },
        maker_token: ASSET_A,
        taker_token: ASSET_B,
    };
    let r = make(&mut store, &mut maker_ctx, 7, 100, 50, Some(100_000), 0);
    assert_eq!(r, Err(EscrowError::MaxExpiryExceeded));
    // nothing was left behind
    assert_eq!(store.open_deals(), 0);
    assert_eq!(maker_ctx.maker_ata.amount, 100);

    let r = make(&mut store, &mut maker_ctx, 7, 100, 50, Some(99_999), 0);
    assert_eq!(r, Ok(()));

    let upd = Update { caller: MAKER, maker: MAKER, seed: 7, new_taker_token: ASSET_B };
    let r = update(&mut store, &upd, 50, Some(100_000), 0);
    assert_eq!(r, Err(EscrowError::MaxExpiryExceeded));
    assert_eq!(store.deals[0].escrow.expiry, Some(99_999));
}

#[test]
fn only_the_maker_may_update_or_refund() {
    let (mut store, _) = open_store();
    let upd = Update { caller: STRANGER, maker: MAKER, seed: 7, new_taker_token: 3 };
    assert_eq!(update(&mut store, &upd, 75, None, 0), Err(EscrowError::AuthorizationFailure));
    assert_eq!(store.deals[0].escrow.offer_amount, 50);

    let authority = derive_authority(&program_id()).unwrap();
    let mut r_ctx = Refund {
        caller: STRANGER,
        maker: MAKER,
        seed: 7,
        maker_ata: TokenAccount { mint: ASSET_A, amount: 0 },
    };
    assert_eq!(
        refund(&mut store, &mut r_ctx, &authority),
        Err(EscrowError::AuthorizationFailure)
    );
    assert_eq!(store.open_deals(), 1);
    assert_eq!(r_ctx.maker_ata.amount, 0);

    // any taker may take, regardless of identity
    let mut t_ctx = taker_ctx();
    t_ctx.taker = STRANGER;
    assert_eq!(take(&mut store, &mut t_ctx, &authority, 0), Ok(()));
}

#[test]
fn insufficient_funds_abort_whole_operation() {
    let (mut store, _) = open_store();
    let authority = derive_authority(&program_id()).unwrap();
    let mut t_ctx = taker_ctx();
    t_ctx.taker_ata.amount = 49;
    assert_eq!(take(&mut store, &mut t_ctx, &authority, 0), Err(EscrowError::InsufficientFunds));
    assert_eq!(t_ctx.taker_ata.amount, 49);
    assert_eq!(t_ctx.taker_receive_ata.amount, 0);
    assert_eq!(t_ctx.maker_receive_ata.amount, 0);
    assert_eq!(store.deals[0].vault.amount, 100);

    let mut poor_maker = Make {
        maker: STRANGER,
        maker_ata: TokenAccount { mint: ASSET_A, amount: 10 },
        maker_token: ASSET_A,
        taker_token: ASSET_B,
    };
    let r = make(&mut store, &mut poor_maker, 1, 11, 5, None, 0);
    assert_eq!(r, Err(EscrowError::InsufficientFunds));
    assert_eq!(poor_maker.maker_ata.amount, 10);
    assert_eq!(store.open_deals(), 1);
}

#[test]
fn reusing_an_open_key_fails_like_a_failed_derivation() {
    let (mut store, mut maker_ctx) = open_store();
    maker_ctx.maker_ata.amount = 100;
    let r = make(&mut store, &mut maker_ctx, 7, 100, 50, None, 0);
    assert_eq!(r, Err(EscrowError::EscrowBumpError));
    assert_eq!(store.open_deals(), 1);
    assert_eq!(maker_ctx.maker_ata.amount, 100);
}

#[test]
fn unknown_key_is_record_not_found() {
    let (mut store, _) = open_store();
    let authority = derive_authority(&program_id()).unwrap();
    let upd = Update { caller: MAKER, maker: MAKER, seed: 8, new_taker_token: 3 };
    assert_eq!(update(&mut store, &upd, 75, None, 0), Err(EscrowError::RecordNotFound));
    let mut r_ctx = Refund {
        caller: STRANGER,
        maker: STRANGER,
        seed: 7,
        maker_ata: TokenAccount { mint: ASSET_A, amount: 0 },
    };
    assert_eq!(refund(&mut store, &mut r_ctx, &authority), Err(EscrowError::RecordNotFound));
    let mut t_ctx = taker_ctx();
    t_ctx.seed = 9;
    assert_eq!(take(&mut store, &mut t_ctx, &authority, 0), Err(EscrowError::RecordNotFound));
}

#[test]
fn wrong_authority_is_address_mismatch() {
    let (mut store, _) = open_store();
    let good = derive_authority(&program_id()).unwrap();
    let forged = DerivedAuthority { addr: good.addr.clone(), salt: good.salt.wrapping_add(1) };
    let mut t_ctx = taker_ctx();
    assert_eq!(take(&mut store, &mut t_ctx, &forged, 0), Err(EscrowError::AddressMismatch));
    assert_eq!(store.open_deals(), 1);

    let mut r_ctx = Refund {
        caller: MAKER,
        maker: MAKER,
        seed: 7,
        maker_ata: TokenAccount { mint: ASSET_A, amount: 0 },
    };
    assert_eq!(refund(&mut store, &mut r_ctx, &forged), Err(EscrowError::AddressMismatch));
    assert_eq!(store.open_deals(), 1);
}

#[test]
fn wrong_asset_kind_is_address_mismatch() {
    let (mut store, _) = open_store();
    let authority = derive_authority(&program_id()).unwrap();

    // the maker's receiving account must hold the offered asset kind
    let mut r_ctx = Refund {
        caller: MAKER,
        maker: MAKER,
        seed: 7,
        maker_ata: TokenAccount { mint: ASSET_B, amount: 0 },
    };
    assert_eq!(refund(&mut store, &mut r_ctx, &authority), Err(EscrowError::AddressMismatch));

    // the taker's accounts must match the record's asset kinds
    let mut t_ctx = taker_ctx();
    t_ctx.taker_receive_ata.mint = ASSET_B;
    assert_eq!(take(&mut store, &mut t_ctx, &authority, 0), Err(EscrowError::AddressMismatch));
    let mut t_ctx = taker_ctx();
    t_ctx.taker_ata.mint = ASSET_A;
    assert_eq!(take(&mut store, &mut t_ctx, &authority, 0), Err(EscrowError::AddressMismatch));

    // a make whose deposit account holds another asset is rejected
    let mut bad_maker = Make {
        maker: STRANGER,
        maker_ata: TokenAccount { mint: ASSET_B, amount: 100 },
        maker_token: ASSET_A,
        taker_token: ASSET_B,
    };
    assert_eq!(
        make(&mut store, &mut bad_maker, 2, 10, 5, None, 0),
        Err(EscrowError::AddressMismatch)
    );
    assert_eq!(store.open_deals(), 1);
}

#[test]
fn deposit_to_maker_pins_its_error_kind() {
    let mut ctx = taker_ctx();
    ctx.maker_receive_ata.mint = ASSET_A;
    assert_eq!(ctx.deposit_to_maker(10), Err(EscrowError::AddressMismatch));
    assert_eq!(ctx.taker_ata.amount, 50);
    assert_eq!(ctx.maker_receive_ata.amount, 0);

    let mut ctx = taker_ctx();
    assert_eq!(ctx.deposit_to_maker(51), Err(EscrowError::InsufficientFunds));
    assert_eq!(ctx.taker_ata.amount, 50);
    assert_eq!(ctx.deposit_to_maker(50), Ok(()));
    assert_eq!(ctx.taker_ata.amount, 0);
    assert_eq!(ctx.maker_receive_ata.amount, 50);
}

#[test]
fn conservation_across_take() {
    let (mut store, maker_ctx) = open_store();
    let authority = derive_authority(&program_id()).unwrap();
    let mut t_ctx = taker_ctx();
    let offered_before = maker_ctx.maker_ata.amount + store.deals[0].vault.amount
        + t_ctx.taker_receive_ata.amount;
    let requested_before = t_ctx.taker_ata.amount + t_ctx.maker_receive_ata.amount;
    assert_eq!(take(&mut store, &mut t_ctx, &authority, 0), Ok(()));
    let offered_after = maker_ctx.maker_ata.amount + t_ctx.taker_receive_ata.amount;
    let requested_after = t_ctx.taker_ata.amount + t_ctx.maker_receive_ata.amount;
    assert_eq!(offered_before, offered_after);
    assert_eq!(requested_before, requested_after);
}

#[test]
fn conservation_across_refund() {
    let (mut store, maker_ctx) = open_store();
    let authority = derive_authority(&program_id()).unwrap();
    let mut r_ctx = Refund {
        caller: MAKER,
        maker: MAKER,
        seed: 7,
        maker_ata: maker_ctx.maker_ata,
    };
    let offered_before = r_ctx.maker_ata.amount + store.deals[0].vault.amount;
    assert_eq!(refund(&mut store, &mut r_ctx, &authority), Ok(()));
    assert_eq!(r_ctx.maker_ata.amount, offered_before);
}
