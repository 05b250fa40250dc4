use escrow::Escrow;
use escrow::EscrowError;
use escrow::MAX_EXPIRY_WINDOW;

fn record(expiry: Option<u64>) -> Escrow {
    Escrow {
        maker: 11,
        maker_token: 1,
        taker_token: 2,
        offer_amount: 50,
        seed: 7,
        expiry,
        auth_bump: 0,
        vault_bump: 0,
        escrow_bump: 0,
    }
}

#[test]
fn deadline_is_checked_inclusively() {
    assert_eq!(record(Some(10)).check_expiry(9), Ok(()));
    assert_eq!(record(Some(10)).check_expiry(10), Err(EscrowError::Expired));
    assert_eq!(record(Some(10)).check_expiry(11), Err(EscrowError::Expired));
}

#[test]
fn zero_and_absent_deadlines_never_expire() {
    assert_eq!(record(Some(0)).check_expiry(u64::MAX), Ok(()));
    assert_eq!(record(None).check_expiry(u64::MAX), Ok(()));
}

#[test]
fn windows_convert_relative_to_absolute() {
    let mut e = record(None);
    assert_eq!(e.set_expiry_relative(Some(10), 5), Ok(()));
    assert_eq!(e.expiry, Some(15));
    assert_eq!(e.set_expiry_relative(Some(0), 5), Ok(()));
    assert_eq!(e.expiry, Some(0));
    assert_eq!(e.set_expiry_relative(None, 5), Ok(()));
    assert_eq!(e.expiry, None);
}

#[test]
fn the_window_bound_is_strict() {
    let mut e = record(Some(3));
    assert_eq!(
        e.set_expiry_relative(Some(MAX_EXPIRY_WINDOW), 5),
        Err(EscrowError::MaxExpiryExceeded)
    );
    // a rejected window leaves the record untouched
    assert_eq!(e.expiry, Some(3));
    assert_eq!(e.set_expiry_relative(Some(MAX_EXPIRY_WINDOW - 1), 5), Ok(()));
    assert_eq!(e.expiry, Some(MAX_EXPIRY_WINDOW + 4));
}

#[test]
fn absolute_deadlines_are_stored_as_given() {
    let mut e = record(None);
    e.set_expiry_absolute(Some(42));
    assert_eq!(e.expiry, Some(42));
    e.set_expiry_absolute(None);
    assert_eq!(e.expiry, None);
}
