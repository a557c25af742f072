//! The attribute store: what is known of each card and of each class, one
//! typed attribute at a time.
//!
//! An attribute is absent until it is first written. The price is optional:
//! reading it never fails, and an absent price reads as "not for sale". Every
//! other attribute is mandatory: reading it before it was written is an error.

use crate::origin::{DispatchError, Error};
use crate::primitives::{AthleteCardClass, Balance, ClassId, Height, InstanceId, OffchainRef, Weight};
use crate::table::{distinct_keys, lemma_to_map_at, lemma_to_map_dom, lemma_to_map_push, lemma_to_map_update, to_map};
use vstd::prelude::*;

verus! {

/// The card `instance_id` of class `class_id`.
pub type CardKey = (ClassId, InstanceId);

/// What the store holds of one card: each attribute, or `None` where it was
/// never written. An unset price and a price never written are the same.
#[derive(Clone, Copy, Debug, PartialEq, Eq)]
pub struct CardRecord {
    pub price: Option<Balance>,
    pub total_shares: Option<u32>,
    pub ty: Option<AthleteCardClass>,
    pub views: Option<u32>,
    pub votes: Option<u32>,
}

impl CardRecord {
    /// The record of a card of which nothing was written.
    pub open spec fn empty() -> Self {
        CardRecord { price: None, total_shares: None, ty: None, views: None, votes: None }
    }
}

/// What the store holds of one class: each attribute, or `None` where it was
/// never written.
#[derive(Clone, Debug, PartialEq)]
pub struct ClassRecord {
    pub height: Option<Height>,
    pub name: Option<Vec<u8>>,
    pub photo: Option<Option<OffchainRef>>,
    pub weight: Option<Weight>,
}

/// A class record with its name as a sequence of bytes.
pub ghost struct ClassRecordView {
    pub height: Option<Height>,
    pub name: Option<Seq<u8>>,
    pub photo: Option<Option<OffchainRef>>,
    pub weight: Option<Weight>,
}

impl ClassRecordView {
    /// The record of a class of which nothing was written.
    pub open spec fn empty() -> Self {
        ClassRecordView { height: None, name: None, photo: None, weight: None }
    }
}

impl View for ClassRecord {
    type V = ClassRecordView;

    open spec fn view(&self) -> ClassRecordView {
        ClassRecordView {
            height: self.height,
            name: match self.name {
                Some(name) => Some(name@),
                None => None,
            },
            photo: self.photo,
            weight: self.weight,
        }
    }
}

/// The attributes of one class, all of them written.
#[derive(Clone, Debug, PartialEq)]
pub struct ClassAttributes {
    pub height: Height,
    pub name: Vec<u8>,
    pub photo: Option<OffchainRef>,
    pub weight: Weight,
}

/// The attributes of a class with the name as a sequence of bytes.
pub ghost struct ClassAttributesView {
    pub height: Height,
    pub name: Seq<u8>,
    pub photo: Option<OffchainRef>,
    pub weight: Weight,
}

impl View for ClassAttributes {
    type V = ClassAttributesView;

    open spec fn view(&self) -> ClassAttributesView {
        ClassAttributesView {
            height: self.height,
            name: self.name@,
            photo: self.photo,
            weight: self.weight,
        }
    }
}

/// What a mandatory attribute reads as: its value, or the error for one that
/// was never written.
pub open spec fn mandatory<T>(attribute: Option<T>) -> Result<T, DispatchError> {
    match attribute {
        Some(value) => Ok(value),
        None => Err(DispatchError::Module(Error::CardAttributeDoesNotExist)),
    }
}

/// The attribute store.
#[derive(Clone, Debug)]
pub struct AttributeStore {
    cards: Vec<(CardKey, CardRecord)>,
    classes: Vec<(ClassId, ClassRecord)>,
}

impl AttributeStore {
    /// No card and no class has two records.
    pub closed spec fn wf(&self) -> bool {
        distinct_keys(self.cards@) && distinct_keys(self.classes@)
    }

    /// The records of the cards of which something was written.
    pub closed spec fn cards(&self) -> Map<CardKey, CardRecord> {
        to_map(self.cards@)
    }

    /// The records of the classes of which something was written.
    pub closed spec fn classes(&self) -> Map<ClassId, ClassRecordView> {
        to_map(self.classes@).map_values(|record: ClassRecord| record@)
    }

    /// What the store holds of a card.
    pub open spec fn card(&self, class_id: ClassId, instance_id: InstanceId) -> CardRecord {
        if self.cards().dom().contains((class_id, instance_id)) {
            self.cards()[(class_id, instance_id)]
        } else {
            CardRecord::empty()
        }
    }

    /// What the store holds of a class.
    pub open spec fn class(&self, class_id: ClassId) -> ClassRecordView {
        if self.classes().dom().contains(class_id) {
            self.classes()[class_id]
        } else {
            ClassRecordView::empty()
        }
    }

    /// A store in which nothing was written.
    pub fn new() -> (store: Self)
        ensures
            store.wf(),
            store.cards() == Map::<CardKey, CardRecord>::empty(),
            store.classes() == Map::<ClassId, ClassRecordView>::empty(),
    {
        let store = AttributeStore { cards: Vec::new(), classes: Vec::new() };
        assert(store.classes() =~= Map::<ClassId, ClassRecordView>::empty());
        store
    }

    /// Where the record of a card stands, if it has one.
    fn find_card(&self, class_id: ClassId, instance_id: InstanceId) -> (at: Option<usize>)
        ensures
            match at {
                Some(i) => i < self.cards@.len() && self.cards@[i as int].0 == (
                    class_id,
                    instance_id,
                ),
                None => !self.cards().dom().contains((class_id, instance_id)),
            },
    {
        let mut i: usize = 0;
        while i < self.cards.len()
            invariant
                i <= self.cards@.len(),
                forall|j: int| 0 <= j < i ==> self.cards@[j].0 != (class_id, instance_id),
            decreases self.cards@.len() - i,
        {
            if self.cards[i].0.0 == class_id && self.cards[i].0.1 == instance_id {
                return Some(i);
            }
            i += 1;
        }
        proof {
            lemma_to_map_dom(self.cards@, (class_id, instance_id));
        }
        None
    }

    /// The record of a card.
    fn card_record(&self, class_id: ClassId, instance_id: InstanceId) -> (record: CardRecord)
        requires
            self.wf(),
        ensures
            record == self.card(class_id, instance_id),
    {
        match self.find_card(class_id, instance_id) {
            Some(i) => {
                proof {
                    lemma_to_map_at(self.cards@, i as int);
                }
                self.cards[i].1
            },
            None => CardRecord {
                price: None,
                total_shares: None,
                ty: None,
                views: None,
                votes: None,
            },
        }
    }

    /// Replaces the record of a card.
    fn put_card(&mut self, class_id: ClassId, instance_id: InstanceId, record: CardRecord)
        requires
            old(self).wf(),
        ensures
            final(self).wf(),
            final(self).cards() == old(self).cards().insert((class_id, instance_id), record),
            final(self).classes() == old(self).classes(),
    {
        match self.find_card(class_id, instance_id) {
            Some(i) => {
                proof {
                    lemma_to_map_update(self.cards@, i as int, record);
                }
                self.cards.set(i, ((class_id, instance_id), record));
            },
            None => {
                proof {
                    lemma_to_map_dom(self.cards@, (class_id, instance_id));
                    lemma_to_map_push(self.cards@, (class_id, instance_id), record);
                }
                self.cards.push(((class_id, instance_id), record));
            },
        }
    }

    /// The asking price of a card; `None` while it is not for sale.
    pub fn price(&self, class_id: ClassId, instance_id: InstanceId) -> (price: Option<Balance>)
        requires
            self.wf(),
        ensures
            price == self.card(class_id, instance_id).price,
    {
        self.card_record(class_id, instance_id).price
    }

    /// Sets the asking price of a card, or takes the card off the market.
    pub fn set_price(&mut self, class_id: ClassId, instance_id: InstanceId, price: Option<Balance>)
        requires
            old(self).wf(),
        ensures
            final(self).wf(),
            final(self).cards() == old(self).cards().insert(
                (class_id, instance_id),
                (CardRecord { price, ..old(self).card(class_id, instance_id) }),
            ),
            final(self).classes() == old(self).classes(),
    {
        let mut record = self.card_record(class_id, instance_id);
        record.price = price;
        self.put_card(class_id, instance_id, record);
    }

    /// The number of shares a card is split into.
    pub fn total_shares(&self, class_id: ClassId, instance_id: InstanceId) -> (shares: Result<
        u32,
        DispatchError,
    >)
        requires
            self.wf(),
        ensures
            shares == mandatory(self.card(class_id, instance_id).total_shares),
    {
        match self.card_record(class_id, instance_id).total_shares {
            Some(value) => Ok(value),
            None => Err(DispatchError::Module(Error::CardAttributeDoesNotExist)),
        }
    }

    /// Sets the number of shares a card is split into.
    pub fn set_total_shares(&mut self, class_id: ClassId, instance_id: InstanceId, shares: u32)
        requires
            old(self).wf(),
        ensures
            final(self).wf(),
            final(self).cards() == old(self).cards().insert(
                (class_id, instance_id),
                (CardRecord { total_shares: Some(shares), ..old(self).card(class_id, instance_id) }),
            ),
            final(self).classes() == old(self).classes(),
    {
        let mut record = self.card_record(class_id, instance_id);
        record.total_shares = Some(shares);
        self.put_card(class_id, instance_id, record);
    }

    /// The tier of a card.
    pub fn ty(&self, class_id: ClassId, instance_id: InstanceId) -> (ty: Result<
        AthleteCardClass,
        DispatchError,
    >)
        requires
            self.wf(),
        ensures
            ty == mandatory(self.card(class_id, instance_id).ty),
    {
        match self.card_record(class_id, instance_id).ty {
            Some(value) => Ok(value),
            None => Err(DispatchError::Module(Error::CardAttributeDoesNotExist)),
        }
    }

    /// Sets the tier of a card.
    pub fn set_ty(&mut self, class_id: ClassId, instance_id: InstanceId, ty: AthleteCardClass)
        requires
            old(self).wf(),
        ensures
            final(self).wf(),
            final(self).cards() == old(self).cards().insert(
                (class_id, instance_id),
                (CardRecord { ty: Some(ty), ..old(self).card(class_id, instance_id) }),
            ),
            final(self).classes() == old(self).classes(),
    {
        let mut record = self.card_record(class_id, instance_id);
        record.ty = Some(ty);
        self.put_card(class_id, instance_id, record);
    }

    /// The number of views attested for a card.
    pub fn views(&self, class_id: ClassId, instance_id: InstanceId) -> (views: Result<
        u32,
        DispatchError,
    >)
        requires
            self.wf(),
        ensures
            views == mandatory(self.card(class_id, instance_id).views),
    {
        match self.card_record(class_id, instance_id).views {
            Some(value) => Ok(value),
            None => Err(DispatchError::Module(Error::CardAttributeDoesNotExist)),
        }
    }

    /// Sets the number of views attested for a card.
    pub fn set_views(&mut self, class_id: ClassId, instance_id: InstanceId, views: u32)
        requires
            old(self).wf(),
        ensures
            final(self).wf(),
            final(self).cards() == old(self).cards().insert(
                (class_id, instance_id),
                (CardRecord { views: Some(views), ..old(self).card(class_id, instance_id) }),
            ),
            final(self).classes() == old(self).classes(),
    {
        let mut record = self.card_record(class_id, instance_id);
        record.views = Some(views);
        self.put_card(class_id, instance_id, record);
    }

    /// The number of votes attested for a card.
    pub fn votes(&self, class_id: ClassId, instance_id: InstanceId) -> (votes: Result<
        u32,
        DispatchError,
    >)
        requires
            self.wf(),
        ensures
            votes == mandatory(self.card(class_id, instance_id).votes),
    {
        match self.card_record(class_id, instance_id).votes {
            Some(value) => Ok(value),
            None => Err(DispatchError::Module(Error::CardAttributeDoesNotExist)),
        }
    }

    /// Sets the number of votes attested for a card.
    pub fn set_votes(&mut self, class_id: ClassId, instance_id: InstanceId, votes: u32)
        requires
            old(self).wf(),
        ensures
            final(self).wf(),
            final(self).cards() == old(self).cards().insert(
                (class_id, instance_id),
                (CardRecord { votes: Some(votes), ..old(self).card(class_id, instance_id) }),
            ),
            final(self).classes() == old(self).classes(),
    {
        let mut record = self.card_record(class_id, instance_id);
        record.votes = Some(votes);
        self.put_card(class_id, instance_id, record);
    }

    /// Where the record of a class stands, if it has one.
    fn find_class(&self, class_id: ClassId) -> (at: Option<usize>)
        ensures
            match at {
                Some(i) => i < self.classes@.len() && self.classes@[i as int].0 == class_id,
                None => !self.classes().dom().contains(class_id),
            },
    {
        let mut i: usize = 0;
        while i < self.classes.len()
            invariant
                i <= self.classes@.len(),
                forall|j: int| 0 <= j < i ==> self.classes@[j].0 != class_id,
            decreases self.classes@.len() - i,
        {
            if self.classes[i].0 == class_id {
                return Some(i);
            }
            i += 1;
        }
        proof {
            lemma_to_map_dom(self.classes@, class_id);
        }
        None
    }

    /// Where the record of a class stands, after giving it an empty one if it
    /// had none.
    fn class_slot(&mut self, class_id: ClassId) -> (at: usize)
        requires
            old(self).wf(),
        ensures
            final(self).wf(),
            final(self).cards() == old(self).cards(),
            at < final(self).classes@.len(),
            final(self).classes@[at as int].0 == class_id,
            final(self).classes@[at as int].1@ == old(self).class(class_id),
            final(self).classes() == old(self).classes().insert(
                class_id,
                old(self).class(class_id),
            ),
    {
        match self.find_class(class_id) {
            Some(i) => {
                proof {
                    lemma_to_map_at(self.classes@, i as int);
                    assert(self.classes() =~= self.classes().insert(
                        class_id,
                        self.class(class_id),
                    ));
                }
                i
            },
            None => {
                let blank = ClassRecord { height: None, name: None, photo: None, weight: None };
                proof {
                    lemma_to_map_dom(self.classes@, class_id);
                    lemma_to_map_push(self.classes@, class_id, blank);
                    assert(to_map(self.classes@).insert(class_id, blank).map_values(
                        |record: ClassRecord| record@,
                    ) =~= old(self).classes().insert(class_id, blank@));
                }
                self.classes.push((class_id, blank));
                self.classes.len() - 1
            },
        }
    }

    /// The class table holds `record` at `at` and is otherwise as `before`
    /// was: then its model is that of `before` with `record` inserted.
    proof fn lemma_class_written(self, before: Self, at: int, record: ClassRecord)
        requires
            before.wf(),
            0 <= at < before.classes@.len(),
            self.cards@ == before.cards@,
            self.classes@ == before.classes@.update(at, (before.classes@[at].0, record)),
        ensures
            self.wf(),
            self.cards() == before.cards(),
            self.classes() == before.classes().insert(before.classes@[at].0, record@),
    {
        lemma_to_map_update(before.classes@, at, record);
        assert(self.classes() =~= before.classes().insert(before.classes@[at].0, record@));
    }

    /// The height of the athlete of a class.
    pub fn class_height(&self, class_id: ClassId) -> (height: Result<Height, DispatchError>)
        requires
            self.wf(),
        ensures
            height == mandatory(self.class(class_id).height),
    {
        match self.find_class(class_id) {
            Some(i) => {
                proof {
                    lemma_to_map_at(self.classes@, i as int);
                }
                match self.classes[i].1.height {
                    Some(value) => Ok(value),
                    None => Err(DispatchError::Module(Error::CardAttributeDoesNotExist)),
                }
            },
            None => Err(DispatchError::Module(Error::CardAttributeDoesNotExist)),
        }
    }

    /// Sets the height of the athlete of a class.
    pub fn set_class_height(&mut self, class_id: ClassId, height: Height)
        requires
            old(self).wf(),
        ensures
            final(self).wf(),
            final(self).cards() == old(self).cards(),
            final(self).classes() == old(self).classes().insert(
                class_id,
                (ClassRecordView { height: Some(height), ..old(self).class(class_id) }),
            ),
    {
        let at = self.class_slot(class_id);
        let ghost before = *self;
        self.classes[at].1.height = Some(height);
        proof {
            let record = self.classes@[at as int].1;
            assert(self.classes@ =~= before.classes@.update(at as int, (class_id, record)));
            self.lemma_class_written(before, at as int, record);
            assert(self.classes() =~= old(self).classes().insert(class_id, record@));
        }
    }

    /// The name of the athlete of a class.
    pub fn class_name(&self, class_id: ClassId) -> (name: Result<Vec<u8>, DispatchError>)
        requires
            self.wf(),
        ensures
            match name {
                Ok(bytes) => self.class(class_id).name == Some(bytes@),
                Err(error) => self.class(class_id).name is None && error == DispatchError::Module(
                    Error::CardAttributeDoesNotExist,
                ),
            },
    {
        match self.find_class(class_id) {
            Some(i) => {
                proof {
                    lemma_to_map_at(self.classes@, i as int);
                }
                match &self.classes[i].1.name {
                    Some(value) => Ok(value.clone()),
                    None => Err(DispatchError::Module(Error::CardAttributeDoesNotExist)),
                }
            },
            None => Err(DispatchError::Module(Error::CardAttributeDoesNotExist)),
        }
    }

    /// Sets the name of the athlete of a class.
    pub fn set_class_name(&mut self, class_id: ClassId, name: Vec<u8>)
        requires
            old(self).wf(),
        ensures
            final(self).wf(),
            final(self).cards() == old(self).cards(),
            final(self).classes() == old(self).classes().insert(
                class_id,
                (ClassRecordView { name: Some(name@), ..old(self).class(class_id) }),
            ),
    {
        let at = self.class_slot(class_id);
        let ghost before = *self;
        self.classes[at].1.name = Some(name);
        proof {
            let record = self.classes@[at as int].1;
            assert(self.classes@ =~= before.classes@.update(at as int, (class_id, record)));
            self.lemma_class_written(before, at as int, record);
            assert(self.classes() =~= old(self).classes().insert(class_id, record@));
        }
    }

    /// The photo of the athlete of a class; `None` inside for an athlete
    /// without one.
    pub fn class_photo(&self, class_id: ClassId) -> (photo: Result<
        Option<OffchainRef>,
        DispatchError,
    >)
        requires
            self.wf(),
        ensures
            photo == mandatory(self.class(class_id).photo),
    {
        match self.find_class(class_id) {
            Some(i) => {
                proof {
                    lemma_to_map_at(self.classes@, i as int);
                }
                match self.classes[i].1.photo {
                    Some(value) => Ok(value),
                    None => Err(DispatchError::Module(Error::CardAttributeDoesNotExist)),
                }
            },
            None => Err(DispatchError::Module(Error::CardAttributeDoesNotExist)),
        }
    }

    /// Sets the photo of the athlete of a class.
    pub fn set_class_photo(&mut self, class_id: ClassId, photo: Option<OffchainRef>)
        requires
            old(self).wf(),
        ensures
            final(self).wf(),
            final(self).cards() == old(self).cards(),
            final(self).classes() == old(self).classes().insert(
                class_id,
                (ClassRecordView { photo: Some(photo), ..old(self).class(class_id) }),
            ),
    {
        let at = self.class_slot(class_id);
        let ghost before = *self;
        self.classes[at].1.photo = Some(photo);
        proof {
            let record = self.classes@[at as int].1;
            assert(self.classes@ =~= before.classes@.update(at as int, (class_id, record)));
            self.lemma_class_written(before, at as int, record);
            assert(self.classes() =~= old(self).classes().insert(class_id, record@));
        }
    }

    /// The weight of the athlete of a class.
    pub fn class_weight(&self, class_id: ClassId) -> (weight: Result<Weight, DispatchError>)
        requires
            self.wf(),
        ensures
            weight == mandatory(self.class(class_id).weight),
    {
        match self.find_class(class_id) {
            Some(i) => {
                proof {
                    lemma_to_map_at(self.classes@, i as int);
                }
                match self.classes[i].1.weight {
                    Some(value) => Ok(value),
                    None => Err(DispatchError::Module(Error::CardAttributeDoesNotExist)),
                }
            },
            None => Err(DispatchError::Module(Error::CardAttributeDoesNotExist)),
        }
    }

    /// Sets the weight of the athlete of a class.
    pub fn set_class_weight(&mut self, class_id: ClassId, weight: Weight)
        requires
            old(self).wf(),
        ensures
            final(self).wf(),
            final(self).cards() == old(self).cards(),
            final(self).classes() == old(self).classes().insert(
                class_id,
                (ClassRecordView { weight: Some(weight), ..old(self).class(class_id) }),
            ),
    {
        let at = self.class_slot(class_id);
        let ghost before = *self;
        self.classes[at].1.weight = Some(weight);
        proof {
            let record = self.classes@[at as int].1;
            assert(self.classes@ =~= before.classes@.update(at as int, (class_id, record)));
            self.lemma_class_written(before, at as int, record);
            assert(self.classes() =~= old(self).classes().insert(class_id, record@));
        }
    }
}

} // verus!
