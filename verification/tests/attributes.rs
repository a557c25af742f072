use meta_athlete::attributes::{AttributeStore, ClassAttributes};
use meta_athlete::origin::{AccountId, DispatchError, Error, Origin};
use meta_athlete::pallet::Pallet;
use meta_athlete::primitives::{
    Athlete, AthleteCardAttributes, AthleteCardClass, Height, OffchainRef, Weight,
};

const MISSING: DispatchError = DispatchError::Module(Error::CardAttributeDoesNotExist);

fn account(last: u8) -> AccountId {
    let mut key = [0u8; 32];
    key[31] = last;
    AccountId::from_raw(key)
}

#[test]
fn a_fresh_store_knows_no_attribute() {
    let store = AttributeStore::new();
    assert_eq!(store.price(1, 0), None);
    assert_eq!(store.total_shares(1, 0), Err(MISSING));
    assert_eq!(store.ty(1, 0), Err(MISSING));
    assert_eq!(store.views(1, 0), Err(MISSING));
    assert_eq!(store.votes(1, 0), Err(MISSING));
    assert_eq!(store.class_height(1), Err(MISSING));
    assert_eq!(store.class_name(1), Err(MISSING));
    assert_eq!(store.class_photo(1), Err(MISSING));
    assert_eq!(store.class_weight(1), Err(MISSING));
}

#[test]
fn each_card_attribute_reads_back_what_was_set() {
    let mut store = AttributeStore::new();
    store.set_price(1, 0, Some(100));
    store.set_total_shares(1, 0, 7);
    store.set_ty(1, 0, AthleteCardClass::Gold);
    store.set_views(1, 0, 11);
    store.set_votes(1, 0, 13);
    assert_eq!(store.price(1, 0), Some(100));
    assert_eq!(store.total_shares(1, 0), Ok(7));
    assert_eq!(store.ty(1, 0), Ok(AthleteCardClass::Gold));
    assert_eq!(store.views(1, 0), Ok(11));
    assert_eq!(store.votes(1, 0), Ok(13));
    store.set_price(1, 0, None);
    assert_eq!(store.price(1, 0), None);
    assert_eq!(store.total_shares(1, 0), Ok(7));
    store.set_views(1, 0, u32::MAX);
    assert_eq!(store.views(1, 0), Ok(u32::MAX));
    assert_eq!(store.votes(1, 0), Ok(13));
}

#[test]
fn a_setter_touches_one_attribute_of_one_card() {
    let mut store = AttributeStore::new();
    store.set_views(1, 0, 5);
    assert_eq!(store.views(1, 0), Ok(5));
    assert_eq!(store.votes(1, 0), Err(MISSING));
    assert_eq!(store.price(1, 0), None);
    assert_eq!(store.views(1, 1), Err(MISSING));
    assert_eq!(store.views(2, 0), Err(MISSING));
    store.set_views(2, 0, 6);
    store.set_views(1, 1, 7);
    assert_eq!(store.views(1, 0), Ok(5));
    assert_eq!(store.views(2, 0), Ok(6));
    assert_eq!(store.views(1, 1), Ok(7));
    store.set_price(u128::MAX, u32::MAX, Some(u128::MAX));
    assert_eq!(store.price(u128::MAX, u32::MAX), Some(u128::MAX));
    assert_eq!(store.price(u128::MAX, 0), None);
}

#[test]
fn each_class_attribute_reads_back_what_was_set() {
    let mut store = AttributeStore::new();
    store.set_class_height(3, Height::from_millimeters(1800));
    assert_eq!(store.class_height(3), Ok(Height { millimeters: 1800 }));
    assert_eq!(store.class_name(3), Err(MISSING));
    store.set_class_name(3, b"A".to_vec());
    assert_eq!(store.class_name(3), Ok(b"A".to_vec()));
    store.set_class_photo(3, None);
    assert!(store.class_photo(3) == Ok(None));
    let photo = OffchainRef { hash: [4u8; 32] };
    store.set_class_photo(3, Some(photo));
    assert!(store.class_photo(3) == Ok(Some(photo)));
    store.set_class_weight(3, Weight::from_grams(80000));
    assert_eq!(store.class_weight(3), Ok(Weight { grams: 80000 }));
    assert_eq!(store.class_height(3), Ok(Height { millimeters: 1800 }));
    assert_eq!(store.class_height(4), Err(MISSING));
    store.set_class_name(4, b"B".to_vec());
    assert_eq!(store.class_name(3), Ok(b"A".to_vec()));
    assert_eq!(store.class_name(4), Ok(b"B".to_vec()));
    store.set_class_name(3, Vec::new());
    assert_eq!(store.class_name(3), Ok(Vec::new()));
}

#[test]
fn card_and_class_tables_are_apart() {
    let mut store = AttributeStore::new();
    store.set_views(1, 0, 5);
    assert_eq!(store.class_height(1), Err(MISSING));
    store.set_class_height(1, Height::from_millimeters(1));
    assert_eq!(store.views(1, 0), Ok(5));
    assert_eq!(store.votes(1, 0), Err(MISSING));
}

#[test]
fn set_attributes_writes_all_five() {
    let mut pallet = Pallet::new();
    let attributes = AthleteCardAttributes {
        price: Some(42),
        total_shares: 3,
        ty: AthleteCardClass::Platinum,
        views: 8,
        votes: 9,
    };
    pallet.set_attributes(&attributes, 5, 6);
    assert_eq!(pallet.attributes(5, 6), Ok(attributes));
    assert_eq!(pallet.store().price(5, 6), Some(42));
    assert_eq!(pallet.store().ty(5, 6), Ok(AthleteCardClass::Platinum));
    assert_eq!(pallet.attributes(5, 7), Err(MISSING));
    assert_eq!(pallet.attributes(6, 6), Err(MISSING));
}

#[test]
fn attributes_need_every_mandatory_one() {
    let mut pallet = Pallet::new();
    let signature = [0u8; 64];
    assert_eq!(pallet.submit_athlete_info(Origin::Root, 1, 0, 4, 5, &signature), Ok(()));
    assert_eq!(pallet.store().views(1, 0), Ok(4));
    assert_eq!(pallet.store().votes(1, 0), Ok(5));
    assert_eq!(pallet.attributes(1, 0), Err(MISSING));
    assert_eq!(
        pallet.set_card_price(Origin::Signed(account(1)), 1, 0, Some(9), Some(account(1))),
        Ok(())
    );
    assert_eq!(pallet.attributes(1, 0), Err(MISSING));
}

#[test]
fn set_class_attributes_writes_all_four() {
    let mut pallet = Pallet::new();
    let photo = OffchainRef { hash: [7u8; 32] };
    let athlete = Athlete {
        name: b"Grace".to_vec(),
        athlete_account: account(1),
        weight: Weight::from_grams(70250),
        height: Height::from_millimeters(1755),
        photo: Some(photo),
        cards_minted: false,
    };
    assert_eq!(pallet.class_attributes(2), Err(MISSING));
    pallet.set_class_attributes(2, &athlete);
    assert!(
        pallet.class_attributes(2)
            == Ok(ClassAttributes {
                height: Height { millimeters: 1755 },
                name: b"Grace".to_vec(),
                photo: Some(photo),
                weight: Weight { grams: 70250 },
            })
    );
    assert_eq!(pallet.class_attributes(1), Err(MISSING));
    assert_eq!(pallet.store().class_weight(2), Ok(Weight { grams: 70250 }));
}
