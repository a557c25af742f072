//! The registry of athletes and the requests on their cards.

use crate::attributes::{
    AttributeStore, CardKey, CardRecord, ClassAttributes, ClassAttributesView, ClassRecordView,
};
use crate::ledger::{ExistenceRequirement, LedgerCall};
use crate::origin::{ensure_root, ensure_signed, AccountId, DispatchError, Error, Origin};
use crate::primitives::{
    Athlete, AthleteCardAttributes, AthleteCardClass, AthleteView, Balance, ClassId, InstanceId,
};
use crate::table::{lemma_to_map_at, lemma_to_map_dom, lemma_to_map_push, to_map};
use vstd::prelude::*;

verus! {

/// Number of Silver cards minted for a class: the cards 0 to 99.
pub const SILVER_CARDS: InstanceId = 100;

/// Number of Gold cards minted for a class: the cards 100 to 139.
pub const GOLD_CARDS: InstanceId = 40;

/// Number of Platinum cards minted for a class: the cards 140 to 149.
pub const PLATINUM_CARDS: InstanceId = 10;

/// Number of cards minted for a class.
pub const CARDS_PER_CLASS: InstanceId = 150;

/// The tier that a card gets when its class is minted.
pub open spec fn tier_of(instance_id: InstanceId) -> AthleteCardClass {
    if instance_id < SILVER_CARDS {
        AthleteCardClass::Silver
    } else if instance_id < SILVER_CARDS + GOLD_CARDS {
        AthleteCardClass::Gold
    } else {
        AthleteCardClass::Platinum
    }
}

/// What the store holds of a card right after its class was minted: no
/// price, no shares, views or votes, and the tier of its index.
pub open spec fn minted_card(instance_id: InstanceId) -> CardRecord {
    CardRecord {
        price: None,
        total_shares: Some(0),
        ty: Some(tier_of(instance_id)),
        views: Some(0),
        votes: Some(0),
    }
}

/// What the store holds of a class right after it was minted.
pub open spec fn minted_class(athlete: AthleteView<AccountId>) -> ClassRecordView {
    ClassRecordView {
        height: Some(athlete.height),
        name: Some(athlete.name),
        photo: Some(athlete.photo),
        weight: Some(athlete.weight),
    }
}

/// The ledger calls that mint a class for `who`: the class is created, then
/// its first `cards` cards are minted in the order of their indices.
pub open spec fn mint_calls(class_id: ClassId, who: AccountId, cards: nat) -> Seq<LedgerCall> {
    seq![LedgerCall::CreateClass { class_id, admin: who, owner: who }] + Seq::new(
        cards,
        |i: int| LedgerCall::MintInto { class_id, instance_id: i as InstanceId, who },
    )
}

/// `cards`, with the first `count` cards of class `class_id` as minting
/// leaves them.
pub open spec fn with_minted_cards(
    cards: Map<CardKey, CardRecord>,
    class_id: ClassId,
    count: nat,
) -> Map<CardKey, CardRecord> {
    Map::new(
        |key: CardKey| cards.dom().contains(key) || (key.0 == class_id && key.1 < count),
        |key: CardKey|
            if key.0 == class_id && key.1 < count {
                minted_card(key.1)
            } else {
                cards[key]
            },
    )
}

/// The record that holds exactly `attributes`.
pub open spec fn stored(attributes: AthleteCardAttributes) -> CardRecord {
    CardRecord {
        price: attributes.price,
        total_shares: Some(attributes.total_shares),
        ty: Some(attributes.ty),
        views: Some(attributes.views),
        votes: Some(attributes.votes),
    }
}

/// The attributes that a record holds, or the error for a record that lacks
/// a mandatory one.
pub open spec fn card_attributes(record: CardRecord) -> Result<
    AthleteCardAttributes,
    DispatchError,
> {
    if record.total_shares is Some && record.ty is Some && record.views is Some && record.votes
        is Some {
        Ok(
            AthleteCardAttributes {
                price: record.price,
                total_shares: record.total_shares->Some_0,
                ty: record.ty->Some_0,
                views: record.views->Some_0,
                votes: record.votes->Some_0,
            },
        )
    } else {
        Err(DispatchError::Module(Error::CardAttributeDoesNotExist))
    }
}

/// The attributes that a class record holds, or the error for a record that
/// lacks one.
pub open spec fn class_attributes_of(record: ClassRecordView) -> Result<
    ClassAttributesView,
    DispatchError,
> {
    if record.height is Some && record.name is Some && record.photo is Some && record.weight
        is Some {
        Ok(
            ClassAttributesView {
                height: record.height->Some_0,
                name: record.name->Some_0,
                photo: record.photo->Some_0,
                weight: record.weight->Some_0,
            },
        )
    } else {
        Err(DispatchError::Module(Error::CardAttributeDoesNotExist))
    }
}

/// The state of the pallet: the counter of class ids, the registry and the
/// attribute store.
pub ghost struct PalletView {
    /// The class id that was given out last, if any was.
    pub counter: Option<ClassId>,
    /// The registered athletes, each under its class id.
    pub athletes: Map<ClassId, AthleteView<AccountId>>,
    /// The attributes of the cards.
    pub cards: Map<CardKey, CardRecord>,
    /// The attributes of the classes.
    pub classes: Map<ClassId, ClassRecordView>,
}

/// What a successful registration leaves: the new state, the id of the new
/// class, and the ledger calls that mint its cards.
pub ghost struct Registration {
    pub state: PalletView,
    pub class_id: ClassId,
    pub calls: Seq<LedgerCall>,
}

impl PalletView {
    /// Every registered class carries an id that the counter has passed.
    pub open spec fn inv(self) -> bool {
        forall|id: ClassId| #[trigger]
            self.athletes.dom().contains(id) ==> self.counter is Some && id
                <= self.counter->Some_0
    }

    /// Whether an athlete with the metadata of `athlete` is registered.
    pub open spec fn is_registered(self, athlete: AthleteView<AccountId>) -> bool {
        exists|id: ClassId| #[trigger]
            self.athletes.dom().contains(id) && self.athletes[id].metadata()
                == athlete.metadata()
    }

    /// The class id to give out next: 1 at first, then one more than the
    /// last; `None` when the last was the greatest there is.
    pub open spec fn next_id(self) -> Option<ClassId> {
        match self.counter {
            None => Some(1),
            Some(last) => if last < u128::MAX {
                Some((last + 1) as ClassId)
            } else {
                None
            },
        }
    }

    /// What registering `athlete` and minting its cards does, asked by
    /// `origin`.
    ///
    /// The request must be signed, the athlete must not be registered yet,
    /// and a class id must be left; the checks are made in this order. Then
    /// the athlete is registered under the next id, with the flag that says
    /// its cards are minted, the attributes of the class and of its 150
    /// cards are written, and the signer is to become the owner of the class
    /// and of each card.
    pub open spec fn mint_cards(self, origin: Origin, athlete: AthleteView<AccountId>) -> Result<
        Registration,
        DispatchError,
    > {
        match origin {
            Origin::Signed(who) => if self.is_registered(athlete) {
                Err(DispatchError::Module(Error::AthleteAlreadyExists))
            } else {
                match self.next_id() {
                    None => Err(DispatchError::Overflow),
                    Some(class_id) => Ok(
                        Registration {
                            state: PalletView {
                                counter: Some(class_id),
                                athletes: self.athletes.insert(
                                    class_id,
                                    AthleteView { cards_minted: true, ..athlete },
                                ),
                                cards: with_minted_cards(
                                    self.cards,
                                    class_id,
                                    CARDS_PER_CLASS as nat,
                                ),
                                classes: self.classes.insert(class_id, minted_class(athlete)),
                            },
                            class_id,
                            calls: mint_calls(class_id, who, CARDS_PER_CLASS as nat),
                        },
                    ),
                }
            },
            _ => Err(DispatchError::BadOrigin),
        }
    }

    /// What setting the asking price of a card does, asked by `origin` while
    /// the asset ledger reports `reported_owner` as the card's owner.
    ///
    /// The request must be signed, the card must have an owner, and the
    /// signer must be that owner; the checks are made in this order. Then the
    /// price is overwritten; `None` takes the card off the market.
    pub open spec fn set_card_price(
        self,
        origin: Origin,
        class_id: ClassId,
        instance_id: InstanceId,
        price: Option<Balance>,
        reported_owner: Option<AccountId>,
    ) -> Result<PalletView, DispatchError> {
        match origin {
            Origin::Signed(who) => match reported_owner {
                None => Err(DispatchError::Module(Error::CardDoesNotHaveAnOwner)),
                Some(owner) => if owner == who {
                    Ok(
                        PalletView {
                            cards: self.cards.insert(
                                (class_id, instance_id),
                                CardRecord { price, ..self.card(class_id, instance_id) },
                            ),
                            ..self
                        },
                    )
                } else {
                    Err(DispatchError::Module(Error::MustBeCardOwner))
                },
            },
            _ => Err(DispatchError::BadOrigin),
        }
    }

    /// What recording attested counters of a card does, asked by `origin`.
    ///
    /// Only the privileged authority may ask. Views and votes are
    /// overwritten with what came, whatever they were.
    pub open spec fn submit_athlete_info(
        self,
        origin: Origin,
        class_id: ClassId,
        instance_id: InstanceId,
        views: u32,
        votes: u32,
    ) -> Result<PalletView, DispatchError> {
        if origin is Root {
            Ok(
                PalletView {
                    cards: self.cards.insert(
                        (class_id, instance_id),
                        CardRecord {
                            views: Some(views),
                            votes: Some(votes),
                            ..self.card(class_id, instance_id)
                        },
                    ),
                    ..self
                },
            )
        } else {
            Err(DispatchError::BadOrigin)
        }
    }

    /// The ledger calls that settle the purchase of a card by `origin`,
    /// while the asset ledger reports `reported_owner` as the card's owner.
    ///
    /// The request must be signed, the card must have an owner, and it must
    /// have a price; the checks are made in this order. Then the signer pays
    /// the price to the owner, and may empty the account by it; after that
    /// the card goes to the signer.
    pub open spec fn transfer_card(
        self,
        origin: Origin,
        class_id: ClassId,
        instance_id: InstanceId,
        reported_owner: Option<AccountId>,
    ) -> Result<Seq<LedgerCall>, DispatchError> {
        match origin {
            Origin::Signed(destination) => match reported_owner {
                None => Err(DispatchError::Module(Error::CardDoesNotHaveAnOwner)),
                Some(source) => match self.card(class_id, instance_id).price {
                    None => Err(DispatchError::Module(Error::CardIsNotForSale)),
                    Some(price) => Ok(
                        seq![
                            LedgerCall::TransferValue {
                                source: destination,
                                dest: source,
                                value: price,
                                existence_requirement: ExistenceRequirement::AllowDeath,
                            },
                            LedgerCall::TransferCard { class_id, instance_id, destination },
                        ],
                    ),
                },
            },
            _ => Err(DispatchError::BadOrigin),
        }
    }

    /// What the store holds of a card.
    pub open spec fn card(self, class_id: ClassId, instance_id: InstanceId) -> CardRecord {
        if self.cards.dom().contains((class_id, instance_id)) {
            self.cards[(class_id, instance_id)]
        } else {
            CardRecord::empty()
        }
    }

    /// What the store holds of a class.
    pub open spec fn class(self, class_id: ClassId) -> ClassRecordView {
        if self.classes.dom().contains(class_id) {
            self.classes[class_id]
        } else {
            ClassRecordView::empty()
        }
    }
}

/// The pallet: the counter of class ids, the registry of athletes and the
/// attribute store.
#[derive(Clone, Debug)]
pub struct Pallet {
    athlete_counter: Option<ClassId>,
    athletes: Vec<(ClassId, Athlete<AccountId>)>,
    attributes: AttributeStore,
}

/// What a registry and a counter must meet to be the state of a pallet: the
/// ids grow from each pair to the next, and the counter has passed each.
pub open spec fn registry_in_order<V>(counter: Option<ClassId>, s: Seq<(ClassId, V)>) -> bool {
    &&& ids_increasing(s)
    &&& forall|i: int| 0 <= i < s.len() ==> counter is Some && s[i].0 <= counter->Some_0
}

/// The ids of the pairs grow from each pair to the next.
pub open spec fn ids_increasing<V>(s: Seq<(ClassId, V)>) -> bool {
    forall|i: int, j: int| 0 <= i < j < s.len() ==> s[i].0 < s[j].0
}

impl View for Pallet {
    type V = PalletView;

    closed spec fn view(&self) -> PalletView {
        PalletView {
            counter: self.athlete_counter,
            athletes: to_map(self.athletes@).map_values(|athlete: Athlete<AccountId>| athlete@),
            cards: self.attributes.cards(),
            classes: self.attributes.classes(),
        }
    }
}

impl Pallet {
    /// The registry is in the order of its ids, the counter has passed each
    /// of them, and the attribute store is well formed.
    pub closed spec fn wf(&self) -> bool {
        &&& registry_in_order(self.athlete_counter, self.athletes@)
        &&& self.attributes.wf()
    }

    /// A well-formed pallet keeps the invariant of its state.
    pub proof fn lemma_wf_inv(&self)
        requires
            self.wf(),
        ensures
            self@.inv(),
    {
        assert forall|id: ClassId| #[trigger] self@.athletes.dom().contains(id) implies self@.counter
            is Some && id <= self@.counter->Some_0 by {
            lemma_to_map_dom(self.athletes@, id);
        }
    }

    /// A pallet with no athlete, no attribute and no class id given out.
    pub fn new() -> (pallet: Self)
        ensures
            pallet.wf(),
            pallet@ == (PalletView {
                counter: None,
                athletes: Map::empty(),
                cards: Map::empty(),
                classes: Map::empty(),
            }),
    {
        let pallet = Pallet {
            athlete_counter: None,
            athletes: Vec::new(),
            attributes: AttributeStore::new(),
        };
        assert(pallet@.athletes =~= Map::empty());
        pallet
    }

    /// The pallet that holds a counter, a registry and an attribute store
    /// that were kept elsewhere; `None` where the registry is not in the order
    /// of its ids or holds an id that the counter has not passed.
    pub fn restore(
        counter: Option<ClassId>,
        athletes: Vec<(ClassId, Athlete<AccountId>)>,
        attributes: AttributeStore,
    ) -> (pallet: Option<Self>)
        requires
            attributes.wf(),
        ensures
            match pallet {
                Some(pallet) => registry_in_order(counter, athletes@) && pallet.wf() && pallet@
                    == (PalletView {
                    counter,
                    athletes: to_map(athletes@).map_values(
                        |athlete: Athlete<AccountId>| athlete@,
                    ),
                    cards: attributes.cards(),
                    classes: attributes.classes(),
                }),
                None => !registry_in_order(counter, athletes@),
            },
    {
        let mut i: usize = 0;
        while i < athletes.len()
            invariant
                i <= athletes@.len(),
                forall|a: int, b: int| 0 <= a < b < i ==> athletes@[a].0 < athletes@[b].0,
                forall|a: int| 0 <= a < i ==> counter is Some && athletes@[a].0 <= counter->Some_0,
            decreases athletes@.len() - i,
        {
            let id = athletes[i].0;
            match counter {
                Some(last) => {
                    if id > last {
                        return None;
                    }
                },
                None => {
                    return None;
                },
            }
            if i > 0 && athletes[i - 1].0 >= id {
                return None;
            }
            i += 1;
        }
        Some(Pallet { athlete_counter: counter, athletes, attributes })
    }

    /// The record of the athlete registered under `class_id`, if there is
    /// one.
    pub fn athlete(&self, class_id: ClassId) -> (athlete: Option<&Athlete<AccountId>>)
        requires
            self.wf(),
        ensures
            match athlete {
                Some(record) => self@.athletes.dom().contains(class_id) && self@.athletes[class_id]
                    == record@,
                None => !self@.athletes.dom().contains(class_id),
            },
    {
        let mut i: usize = 0;
        while i < self.athletes.len()
            invariant
                self.wf(),
                i <= self.athletes@.len(),
                forall|j: int| 0 <= j < i ==> self.athletes@[j].0 != class_id,
            decreases self.athletes@.len() - i,
        {
            if self.athletes[i].0 == class_id {
                proof {
                    lemma_to_map_at(self.athletes@, i as int);
                }
                return Some(&self.athletes[i].1);
            }
            i += 1;
        }
        proof {
            lemma_to_map_dom(self.athletes@, class_id);
        }
        None
    }

    /// Gives out the next class id.
    ///
    /// The first id is 1, and each later one is the last plus one. When the
    /// last was the greatest there is, the call fails with `Overflow` and the
    /// counter stays.
    pub fn next_athlete_id(&mut self) -> (id: Result<ClassId, DispatchError>)
        requires
            old(self).wf(),
        ensures
            final(self).wf(),
            match old(self)@.next_id() {
                Some(next) => id == Ok::<ClassId, DispatchError>(next) && final(self)@ == (
                    PalletView { counter: Some(next), ..old(self)@ }
                ),
                None => id == Err::<ClassId, DispatchError>(DispatchError::Overflow)
                    && final(self)@ == old(self)@,
            },
    {
        let id = match self.athlete_counter {
            Some(current) => match current.checked_add(1u128) {
                Some(next) => next,
                None => {
                    return Err(DispatchError::Overflow);
                },
            },
            None => 1,
        };
        self.athlete_counter = Some(id);
        Ok(id)
    }

    /// The owner of a card as the asset ledger reports it, or the error for
    /// a card that the ledger knows no owner of.
    pub fn owner(reported_owner: Option<AccountId>) -> (owner: Result<AccountId, DispatchError>)
        ensures
            owner == match reported_owner {
                Some(account) => Ok::<AccountId, DispatchError>(account),
                None => Err(DispatchError::Module(Error::CardDoesNotHaveAnOwner)),
            },
    {
        match reported_owner {
            Some(account) => Ok(account),
            None => Err(DispatchError::Module(Error::CardDoesNotHaveAnOwner)),
        }
    }

    /// The attribute store, to read single attributes from.
    pub fn store(&self) -> (store: &AttributeStore)
        requires
            self.wf(),
        ensures
            store.wf(),
            store.cards() == self@.cards,
            store.classes() == self@.classes,
    {
        &self.attributes
    }

    /// The class id that was given out last, if any was.
    pub fn athlete_counter(&self) -> (counter: Option<ClassId>)
        ensures
            counter == self@.counter,
    {
        self.athlete_counter
    }

    /// All five attributes of a card, or `CardAttributeDoesNotExist` where a
    /// mandatory one was never written.
    pub fn attributes(&self, class_id: ClassId, instance_id: InstanceId) -> (attributes: Result<
        AthleteCardAttributes,
        DispatchError,
    >)
        requires
            self.wf(),
        ensures
            attributes == card_attributes(self@.card(class_id, instance_id)),
    {
        let price = self.attributes.price(class_id, instance_id);
        let total_shares = match self.attributes.total_shares(class_id, instance_id) {
            Ok(value) => value,
            Err(error) => {
                return Err(error);
            },
        };
        let ty = match self.attributes.ty(class_id, instance_id) {
            Ok(value) => value,
            Err(error) => {
                return Err(error);
            },
        };
        let views = match self.attributes.views(class_id, instance_id) {
            Ok(value) => value,
            Err(error) => {
                return Err(error);
            },
        };
        let votes = match self.attributes.votes(class_id, instance_id) {
            Ok(value) => value,
            Err(error) => {
                return Err(error);
            },
        };
        Ok(AthleteCardAttributes { price, total_shares, ty, views, votes })
    }

    /// All four attributes of a class, or `CardAttributeDoesNotExist` where
    /// one was never written.
    pub fn class_attributes(&self, class_id: ClassId) -> (attributes: Result<
        ClassAttributes,
        DispatchError,
    >)
        requires
            self.wf(),
        ensures
            match attributes {
                Ok(found) => class_attributes_of(self@.class(class_id)) == Ok::<
                    ClassAttributesView,
                    DispatchError,
                >(found@),
                Err(error) => class_attributes_of(self@.class(class_id)) == Err::<
                    ClassAttributesView,
                    DispatchError,
                >(error),
            },
    {
        let height = match self.attributes.class_height(class_id) {
            Ok(value) => value,
            Err(error) => {
                return Err(error);
            },
        };
        let name = match self.attributes.class_name(class_id) {
            Ok(value) => value,
            Err(error) => {
                return Err(error);
            },
        };
        let photo = match self.attributes.class_photo(class_id) {
            Ok(value) => value,
            Err(error) => {
                return Err(error);
            },
        };
        let weight = match self.attributes.class_weight(class_id) {
            Ok(value) => value,
            Err(error) => {
                return Err(error);
            },
        };
        Ok(ClassAttributes { height, name, photo, weight })
    }

    /// Writes all five attributes of a card.
    pub fn set_attributes(
        &mut self,
        attributes: &AthleteCardAttributes,
        class_id: ClassId,
        instance_id: InstanceId,
    )
        requires
            old(self).wf(),
        ensures
            final(self).wf(),
            final(self)@ == (PalletView {
                cards: old(self)@.cards.insert((class_id, instance_id), stored(*attributes)),
                ..old(self)@
            }),
    {
        self.attributes.set_price(class_id, instance_id, attributes.price);
        self.attributes.set_total_shares(class_id, instance_id, attributes.total_shares);
        self.attributes.set_ty(class_id, instance_id, attributes.ty);
        self.attributes.set_views(class_id, instance_id, attributes.views);
        self.attributes.set_votes(class_id, instance_id, attributes.votes);
        assert(self@.cards =~= old(self)@.cards.insert(
            (class_id, instance_id),
            stored(*attributes),
        ));
    }

    /// Writes the four attributes of a class from the record of its athlete.
    pub fn set_class_attributes(&mut self, class_id: ClassId, class_attributes: &Athlete<AccountId>)
        requires
            old(self).wf(),
        ensures
            final(self).wf(),
            final(self)@ == (PalletView {
                classes: old(self)@.classes.insert(class_id, minted_class(class_attributes@)),
                ..old(self)@
            }),
    {
        self.attributes.set_class_height(class_id, class_attributes.height);
        self.attributes.set_class_name(class_id, class_attributes.name.clone());
        self.attributes.set_class_photo(class_id, class_attributes.photo);
        self.attributes.set_class_weight(class_id, class_attributes.weight);
        assert(self@.classes =~= old(self)@.classes.insert(
            class_id,
            minted_class(class_attributes@),
        ));
    }

    /// Whether an athlete with the metadata of `athlete` is registered.
    pub fn is_registered(&self, athlete: &Athlete<AccountId>) -> (found: bool)
        requires
            self.wf(),
        ensures
            found == self@.is_registered(athlete@),
    {
        let mut i: usize = 0;
        while i < self.athletes.len()
            invariant
                self.wf(),
                i <= self.athletes@.len(),
                forall|j: int|
                    0 <= j < i ==> self.athletes@[j].1@.metadata() != athlete@.metadata(),
            decreases self.athletes@.len() - i,
        {
            if self.athletes[i].1.same_metadata(athlete) {
                proof {
                    lemma_to_map_at(self.athletes@, i as int);
                    assert(self@.athletes.dom().contains(self.athletes@[i as int].0));
                }
                return true;
            }
            i += 1;
        }
        proof {
            if self@.is_registered(athlete@) {
                let id = choose|id: ClassId| #[trigger]
                    self@.athletes.dom().contains(id) && self@.athletes[id].metadata()
                        == athlete@.metadata();
                lemma_to_map_dom(self.athletes@, id);
                let j = choose|j: int| 0 <= j < self.athletes@.len() && self.athletes@[j].0 == id;
                lemma_to_map_at(self.athletes@, j);
            }
        }
        false
    }

    /// Mints the cards `first` to `end - 1` of a class, all of tier `ty`:
    /// asks the asset ledger for each card and writes its attributes.
    fn add_instances(
        &mut self,
        calls: &mut Vec<LedgerCall>,
        class_id: ClassId,
        who: AccountId,
        first: InstanceId,
        end: InstanceId,
        ty: AthleteCardClass,
        Ghost(base): Ghost<Map<CardKey, CardRecord>>,
    )
        requires
            old(self).wf(),
            first <= end <= CARDS_PER_CLASS,
            forall|i: InstanceId| first <= i < end ==> tier_of(i) == ty,
            old(self)@.cards == with_minted_cards(base, class_id, first as nat),
            old(calls)@ == mint_calls(class_id, who, first as nat),
        ensures
            final(self).wf(),
            final(self)@ == (PalletView {
                cards: with_minted_cards(base, class_id, end as nat),
                ..old(self)@
            }),
            final(calls)@ == mint_calls(class_id, who, end as nat),
    {
        let ghost before = self@;
        let attributes = AthleteCardAttributes {
            price: None,
            total_shares: 0,
            ty,
            views: 0,
            votes: 0,
        };
        let mut idx: InstanceId = first;
        while idx < end
            invariant
                first <= idx <= end <= CARDS_PER_CLASS,
                forall|i: InstanceId| first <= i < end ==> tier_of(i) == ty,
                attributes == (AthleteCardAttributes {
                    price: None,
                    total_shares: 0,
                    ty,
                    views: 0,
                    votes: 0,
                }),
                self.wf(),
                self@ == (PalletView {
                    cards: with_minted_cards(base, class_id, idx as nat),
                    ..before
                }),
                calls@ == mint_calls(class_id, who, idx as nat),
            decreases end - idx,
        {
            calls.push(LedgerCall::MintInto { class_id, instance_id: idx, who });
            self.set_attributes(&attributes, class_id, idx);
            proof {
                assert(stored(attributes) == minted_card(idx));
                assert(self@.cards =~= with_minted_cards(base, class_id, (idx + 1) as nat));
                assert(calls@ =~= mint_calls(class_id, who, (idx + 1) as nat));
            }
            idx += 1;
        }
    }

    /// Registers an athlete and mints the 150 cards of the new class: the
    /// cards 0 to 99 are Silver, 100 to 139 Gold and 140 to 149 Platinum.
    ///
    /// On success the result holds the id of the new class and the calls
    /// that create the class and mint its cards in the asset ledger, for the
    /// signer. When the request is refused, nothing has changed.
    pub fn mint_cards(&mut self, origin: Origin, athlete: Athlete<AccountId>) -> (minted: Result<
        (ClassId, Vec<LedgerCall>),
        DispatchError,
    >)
        requires
            old(self).wf(),
        ensures
            final(self).wf(),
            match minted {
                Ok((class_id, calls)) => old(self)@.mint_cards(origin, athlete@) == Ok::<
                    Registration,
                    DispatchError,
                >(Registration { state: final(self)@, class_id, calls: calls@ }),
                Err(error) => old(self)@.mint_cards(origin, athlete@) == Err::<
                    Registration,
                    DispatchError,
                >(error) && final(self)@ == old(self)@,
            },
    {
        let who = match ensure_signed(origin) {
            Ok(account) => account,
            Err(error) => {
                return Err(error);
            },
        };
        if self.is_registered(&athlete) {
            return Err(DispatchError::Module(Error::AthleteAlreadyExists));
        }
        proof {
            self.lemma_wf_inv();
        }
        let id = match self.next_athlete_id() {
            Ok(id) => id,
            Err(error) => {
                return Err(error);
            },
        };
        let mut calls: Vec<LedgerCall> = Vec::new();
        calls.push(LedgerCall::CreateClass { class_id: id, admin: who, owner: who });
        self.set_class_attributes(id, &athlete);

        let ghost base = self@.cards;
        proof {
            assert(self@.cards =~= with_minted_cards(base, id, 0));
            assert(calls@ =~= mint_calls(id, who, 0));
        }
        self.add_instances(&mut calls, id, who, 0, 100, AthleteCardClass::Silver, Ghost(base));
        self.add_instances(&mut calls, id, who, 100, 140, AthleteCardClass::Gold, Ghost(base));
        self.add_instances(&mut calls, id, who, 140, 150, AthleteCardClass::Platinum, Ghost(base));

        let mut record = athlete;
        record.cards_minted = true;
        proof {
            assert forall|i: int| 0 <= i < self.athletes@.len() implies self.athletes@[i].0
                < id by {
                lemma_to_map_dom(self.athletes@, self.athletes@[i].0);
                assert(old(self)@.athletes.dom().contains(self.athletes@[i].0));
            }
            lemma_to_map_push(self.athletes@, id, record);
            assert(to_map(self.athletes@).insert(id, record).map_values(
                |athlete: Athlete<AccountId>| athlete@,
            ) =~= self@.athletes.insert(id, record@));
        }
        self.athletes.push((id, record));
        Ok((id, calls))
    }

    /// Sets the asking price of a card, or takes it off the market with
    /// `None`. Only the owner that the asset ledger reports may do so.
    ///
    /// When the request is refused, nothing has changed.
    pub fn set_card_price(
        &mut self,
        origin: Origin,
        class_id: ClassId,
        instance_id: InstanceId,
        price: Option<Balance>,
        reported_owner: Option<AccountId>,
    ) -> (done: Result<(), DispatchError>)
        requires
            old(self).wf(),
        ensures
            final(self).wf(),
            match done {
                Ok(_) => old(self)@.set_card_price(
                    origin,
                    class_id,
                    instance_id,
                    price,
                    reported_owner,
                ) == Ok::<PalletView, DispatchError>(final(self)@),
                Err(error) => old(self)@.set_card_price(
                    origin,
                    class_id,
                    instance_id,
                    price,
                    reported_owner,
                ) == Err::<PalletView, DispatchError>(error) && final(self)@ == old(self)@,
            },
    {
        let who = match ensure_signed(origin) {
            Ok(account) => account,
            Err(error) => {
                return Err(error);
            },
        };
        let owner = match Self::owner(reported_owner) {
            Ok(account) => account,
            Err(error) => {
                return Err(error);
            },
        };
        if !(owner == who) {
            return Err(DispatchError::Module(Error::MustBeCardOwner));
        }
        self.attributes.set_price(class_id, instance_id, price);
        Ok(())
    }

    /// Records the views and votes attested for a card. Only the privileged
    /// authority may do so. The signature that came with the counters is the
    /// host's to check before it asks: nothing here reads it.
    ///
    /// When the request is refused, nothing has changed.
    pub fn submit_athlete_info(
        &mut self,
        origin: Origin,
        class_id: ClassId,
        instance_id: InstanceId,
        views: u32,
        votes: u32,
        _signature: &[u8],
    ) -> (done: Result<(), DispatchError>)
        requires
            old(self).wf(),
        ensures
            final(self).wf(),
            match done {
                Ok(_) => old(self)@.submit_athlete_info(origin, class_id, instance_id, views, votes)
                    == Ok::<PalletView, DispatchError>(final(self)@),
                Err(error) => old(self)@.submit_athlete_info(
                    origin,
                    class_id,
                    instance_id,
                    views,
                    votes,
                ) == Err::<PalletView, DispatchError>(error) && final(self)@ == old(self)@,
            },
    {
        match ensure_root(origin) {
            Ok(_) => {},
            Err(error) => {
                return Err(error);
            },
        }
        self.attributes.set_views(class_id, instance_id, views);
        self.attributes.set_votes(class_id, instance_id, votes);
        assert(self@.cards =~= old(self)@.cards.insert(
            (class_id, instance_id),
            CardRecord {
                views: Some(views),
                votes: Some(votes),
                ..old(self)@.card(class_id, instance_id)
            },
        ));
        Ok(())
    }

    /// Settles the purchase of a card by the signer, at the card's asking
    /// price: the result holds the payment to the owner that the asset ledger
    /// reports, then the transfer of the card to the signer.
    ///
    /// The pallet's own state is only read: the price stays as it is, also
    /// after the sale.
    pub fn transfer_card(
        &self,
        origin: Origin,
        class_id: ClassId,
        instance_id: InstanceId,
        reported_owner: Option<AccountId>,
    ) -> (settlement: Result<Vec<LedgerCall>, DispatchError>)
        requires
            self.wf(),
        ensures
            match settlement {
                Ok(calls) => self@.transfer_card(origin, class_id, instance_id, reported_owner)
                    == Ok::<Seq<LedgerCall>, DispatchError>(calls@),
                Err(error) => self@.transfer_card(origin, class_id, instance_id, reported_owner)
                    == Err::<Seq<LedgerCall>, DispatchError>(error),
            },
    {
        let destination = match ensure_signed(origin) {
            Ok(account) => account,
            Err(error) => {
                return Err(error);
            },
        };
        let source = match Self::owner(reported_owner) {
            Ok(account) => account,
            Err(error) => {
                return Err(error);
            },
        };
        let price = match self.attributes.price(class_id, instance_id) {
            Some(price) => price,
            None => {
                return Err(DispatchError::Module(Error::CardIsNotForSale));
            },
        };
        let mut calls: Vec<LedgerCall> = Vec::new();
        calls.push(
            LedgerCall::TransferValue {
                source: destination,
                dest: source,
                value: price,
                existence_requirement: ExistenceRequirement::AllowDeath,
            },
        );
        calls.push(LedgerCall::TransferCard { class_id, instance_id, destination });
        assert(calls@ =~= self@.transfer_card(
            origin,
            class_id,
            instance_id,
            reported_owner,
        )->Ok_0);
        Ok(calls)
    }
}

} // verus!
