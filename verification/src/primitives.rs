//! Identifiers, physical units and the records shared by every component.

use vstd::prelude::*;
use vstd::std_specs::cmp::PartialEqSpecImpl;
use vstd::std_specs::convert::FromSpecImpl;

verus! {

/// Amount of the value ledger's currency.
pub type Balance = u128;

/// Identifier of an athlete inside a card identifier.
pub type AthleteId = u64;

/// Identifier of an athlete class in the registry and in the asset ledger.
pub type ClassId = u128;

/// Index of a card among the cards of its class.
pub type InstanceId = u32;

/// Key under which card identifiers are hashed.
pub const CARD_HASH_KEY: &'static str = "meta_athlete_nft";

/// Whether two 32-byte strings hold the same bytes.
pub fn bytes32_eq(a: &[u8; 32], b: &[u8; 32]) -> (same: bool)
    ensures
        same == (*a == *b),
{
    let mut i: usize = 0;
    while i < 32
        invariant
            i <= 32,
            forall|j: int| 0 <= j < i ==> a@[j] == b@[j],
        decreases 32 - i,
    {
        if a[i] != b[i] {
            return false;
        }
        i += 1;
    }
    assert(*a =~= *b);
    true
}

/// Whether two byte strings hold the same bytes.
pub fn bytes_eq(a: &[u8], b: &[u8]) -> (same: bool)
    ensures
        same == (a@ == b@),
{
    if a.len() != b.len() {
        return false;
    }
    let mut i: usize = 0;
    while i < a.len()
        invariant
            i <= a.len(),
            a.len() == b.len(),
            forall|j: int| 0 <= j < i ==> a@[j] == b@[j],
        decreases a.len() - i,
    {
        if a[i] != b[i] {
            return false;
        }
        i += 1;
    }
    assert(a@ =~= b@);
    true
}

/// A reference to a piece of data kept off the ledger: the 256-bit BLAKE2
/// hash of the data, by which it can be fetched and checked.
#[derive(Clone, Copy, Debug)]
pub struct OffchainRef {
    pub hash: [u8; 32],
}

impl PartialEq for OffchainRef {
    fn eq(&self, other: &Self) -> (same: bool) {
        bytes32_eq(&self.hash, &other.hash)
    }
}

impl PartialEqSpecImpl for OffchainRef {
    open spec fn obeys_eq_spec() -> bool {
        true
    }

    open spec fn eq_spec(&self, other: &Self) -> bool {
        *self == *other
    }
}

/// Identifier of one card: the athlete and the index of the card.
#[derive(Clone, Copy, Debug, PartialEq, Eq, Structural)]
pub struct CardId {
    pub athlete_id: AthleteId,
    pub instance_id: InstanceId,
}

/// A weight, held as a whole number of grams.
#[derive(Clone, Copy, Debug, PartialEq, Eq, Structural)]
pub struct Weight {
    pub grams: u32,
}

impl Weight {
    /// The weight of `weight` grams.
    pub fn from_grams(weight: u32) -> (w: Self)
        ensures
            w.grams == weight,
    {
        Self { grams: weight }
    }
}

/// A height, held as a whole number of millimeters.
#[derive(Clone, Copy, Debug, PartialEq, Eq, Structural)]
pub struct Height {
    pub millimeters: u32,
}

impl Height {
    /// The height of `length` millimeters.
    pub fn from_millimeters(length: u32) -> (h: Self)
        ensures
            h.millimeters == length,
    {
        Self { millimeters: length }
    }
}

/// What identifies an athlete: two athletes with the same metadata are the
/// same athlete, whatever account or flag their records carry.
pub ghost struct Metadata {
    pub name: Seq<u8>,
    pub height: Height,
    pub weight: Weight,
    pub photo: Option<OffchainRef>,
}

/// A registered athlete.
#[derive(Clone, Debug, PartialEq)]
pub struct Athlete<AccountId> {
    /// Athlete's full name.
    pub name: Vec<u8>,
    /// Account owned by the athlete.
    pub athlete_account: AccountId,
    /// Athlete's weight.
    pub weight: Weight,
    /// Athlete's height.
    pub height: Height,
    /// Athlete's photo.
    pub photo: Option<OffchainRef>,
    /// Whether cards have been minted for this athlete.
    pub cards_minted: bool,
}

/// An athlete record with its name as a sequence of bytes.
pub ghost struct AthleteView<AccountId> {
    pub name: Seq<u8>,
    pub athlete_account: AccountId,
    pub weight: Weight,
    pub height: Height,
    pub photo: Option<OffchainRef>,
    pub cards_minted: bool,
}

impl<AccountId> AthleteView<AccountId> {
    /// The part of the record that identifies the athlete.
    pub open spec fn metadata(self) -> Metadata {
        Metadata { name: self.name, height: self.height, weight: self.weight, photo: self.photo }
    }
}

impl<AccountId> View for Athlete<AccountId> {
    type V = AthleteView<AccountId>;

    open spec fn view(&self) -> AthleteView<AccountId> {
        AthleteView {
            name: self.name@,
            athlete_account: self.athlete_account,
            weight: self.weight,
            height: self.height,
            photo: self.photo,
            cards_minted: self.cards_minted,
        }
    }
}

impl<AccountId> Athlete<AccountId> {
    /// Whether `self` and `other` describe the same athlete: name, height,
    /// weight and photo are compared, byte for byte.
    pub fn same_metadata(&self, other: &Self) -> (same: bool)
        ensures
            same == (self@.metadata() == other@.metadata()),
    {
        let same_photo = match (&self.photo, &other.photo) {
            (Some(a), Some(b)) => bytes32_eq(&a.hash, &b.hash),
            (None, None) => true,
            _ => false,
        };
        same_photo && self.height.millimeters == other.height.millimeters
            && self.weight.grams == other.weight.grams && bytes_eq(
            self.name.as_slice(),
            other.name.as_slice(),
        )
    }
}

/// One card as a marketplace lists it.
#[derive(Clone, Debug, PartialEq)]
pub struct Card<AccountId, Balance> {
    pub owner: Option<AccountId>,
    pub id: CardId,
    pub tier: AthleteCardClass,
    pub value: Balance,
    pub is_on_market: bool,
}

/// Tier of an athlete card.
#[derive(Clone, Copy, Debug, PartialEq, Eq, Structural)]
pub enum AthleteCardClass {
    /// Common tier.
    Silver,
    /// Middle tier.
    Gold,
    /// Rarest tier.
    Platinum,
}

/// The value a card of each tier starts with.
#[derive(Clone, Copy, Debug, PartialEq, Eq)]
pub struct InitialCardValues<Balance> {
    pub silver: Balance,
    pub gold: Balance,
    pub platinum: Balance,
}

/// The attributes of one card.
#[derive(Clone, Copy, Debug, PartialEq, Eq, Structural)]
pub struct AthleteCardAttributes {
    /// Asking price; `None` while the card is not for sale.
    pub price: Option<Balance>,
    /// Number of shares the card is split into.
    pub total_shares: u32,
    /// Tier of the card.
    pub ty: AthleteCardClass,
    /// Number of views attested for the card.
    pub views: u32,
    /// Number of votes attested for the card.
    pub votes: u32,
}

/// An application to register a person as a verified athlete.
#[derive(Clone, Debug, PartialEq)]
pub struct AthleteApplication<AccountId> {
    /// Applicant's name.
    pub name: Vec<u8>,
    /// Account owned by the applicant.
    pub applicant_account: AccountId,
    /// Applicant's weight.
    pub weight: Weight,
    /// Applicant's height.
    pub height: Height,
    /// Photo handed in with the application, if any.
    pub photo: Option<OffchainRef>,
}

impl<T> From<AthleteApplication<T>> for Athlete<T> {
    fn from(other: AthleteApplication<T>) -> (athlete: Self) {
        Athlete {
            name: other.name,
            athlete_account: other.applicant_account,
            weight: other.weight,
            height: other.height,
            photo: other.photo,
            cards_minted: false,
        }
    }
}

impl<T> FromSpecImpl<AthleteApplication<T>> for Athlete<T> {
    open spec fn obeys_from_spec() -> bool {
        true
    }

    open spec fn from_spec(other: AthleteApplication<T>) -> Self {
        Athlete {
            name: other.name,
            athlete_account: other.applicant_account,
            weight: other.weight,
            height: other.height,
            photo: other.photo,
            cards_minted: false,
        }
    }
}

impl From<AthleteCardClass> for u8 {
    fn from(from: AthleteCardClass) -> (number: Self) {
        match from {
            AthleteCardClass::Silver => 0,
            AthleteCardClass::Gold => 1,
            AthleteCardClass::Platinum => 2,
        }
    }
}

impl FromSpecImpl<AthleteCardClass> for u8 {
    open spec fn obeys_from_spec() -> bool {
        true
    }

    open spec fn from_spec(from: AthleteCardClass) -> Self {
        match from {
            AthleteCardClass::Silver => 0,
            AthleteCardClass::Gold => 1,
            AthleteCardClass::Platinum => 2,
        }
    }
}

} // verus!
