use meta_athlete::origin::{
    ensure_root, ensure_signed, AccountId, DispatchError, Error, Origin,
};
use meta_athlete::pallet::Pallet;

fn account(last: u8) -> AccountId {
    let mut key = [0u8; 32];
    key[31] = last;
    AccountId::from_raw(key)
}

#[test]
fn accounts_compare_by_key() {
    assert!(account(1) == account(1));
    assert!(account(1) != account(2));
    let mut key = [0u8; 32];
    key[0] = 1;
    assert!(AccountId::from_raw(key) != account(1));
    assert_eq!(account(7).0[31], 7);
}

#[test]
fn ensure_signed_takes_signed_requests_only() {
    assert!(ensure_signed(Origin::Signed(account(1))) == Ok(account(1)));
    assert!(ensure_signed(Origin::Root) == Err(DispatchError::BadOrigin));
    assert!(ensure_signed(Origin::Unsigned) == Err(DispatchError::BadOrigin));
}

#[test]
fn ensure_root_takes_the_authority_only() {
    assert_eq!(ensure_root(Origin::Root), Ok(()));
    assert_eq!(ensure_root(Origin::Signed(account(1))), Err(DispatchError::BadOrigin));
    assert_eq!(ensure_root(Origin::Unsigned), Err(DispatchError::BadOrigin));
}

#[test]
fn a_card_without_owner_is_an_error() {
    assert!(Pallet::owner(Some(account(3))) == Ok(account(3)));
    assert!(
        Pallet::owner(None) == Err(DispatchError::Module(Error::CardDoesNotHaveAnOwner))
    );
}
