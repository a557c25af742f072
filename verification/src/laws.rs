//! What holds of the requests, whatever the state they meet.

use crate::attributes::CardKey;
use crate::ledger::{ExistenceRequirement, LedgerCall};
use crate::origin::{AccountId, DispatchError, Error, Origin};
use crate::pallet::{card_attributes, PalletView, Registration, CARDS_PER_CLASS};
use crate::primitives::{
    AthleteCardAttributes, AthleteCardClass, AthleteView, Balance, ClassId, InstanceId,
};
use vstd::prelude::*;

verus! {

/// A registration that succeeds gives out the id after the one that the
/// counter held, or 1 where it held none: an id greater than the id of every
/// class registered before. The counter then holds the new id, and the
/// invariant of the state is kept.
pub proof fn lemma_registration_id_is_new(
    pre: PalletView,
    origin: Origin,
    athlete: AthleteView<AccountId>,
)
    requires
        pre.inv(),
        pre.mint_cards(origin, athlete) is Ok,
    ensures
        forall|id: ClassId| #[trigger]
            pre.athletes.dom().contains(id) ==> id < pre.mint_cards(origin, athlete)->Ok_0.class_id,
        pre.counter is Some ==> pre.counter->Some_0 < pre.mint_cards(
            origin,
            athlete,
        )->Ok_0.class_id,
        pre.mint_cards(origin, athlete)->Ok_0.class_id == match pre.counter {
            None => 1,
            Some(last) => last + 1,
        },
        pre.mint_cards(origin, athlete)->Ok_0.state.counter == Some(
            pre.mint_cards(origin, athlete)->Ok_0.class_id,
        ),
        pre.mint_cards(origin, athlete)->Ok_0.state.inv(),
{
}

/// Of two registrations in a row, each of which succeeds, the second gives
/// out the greater id.
pub proof fn lemma_registration_ids_grow(
    pre: PalletView,
    first_origin: Origin,
    first: AthleteView<AccountId>,
    second_origin: Origin,
    second: AthleteView<AccountId>,
)
    requires
        pre.mint_cards(first_origin, first) is Ok,
        pre.mint_cards(first_origin, first)->Ok_0.state.mint_cards(second_origin, second) is Ok,
    ensures
        pre.mint_cards(first_origin, first)->Ok_0.class_id < pre.mint_cards(
            first_origin,
            first,
        )->Ok_0.state.mint_cards(second_origin, second)->Ok_0.class_id,
{
}

/// Once an athlete is registered, a signed request to register an athlete
/// with the same metadata is refused with `AthleteAlreadyExists`.
pub proof fn lemma_registration_not_repeatable(
    pre: PalletView,
    origin: Origin,
    athlete: AthleteView<AccountId>,
    again: AccountId,
    same: AthleteView<AccountId>,
)
    requires
        pre.mint_cards(origin, athlete) is Ok,
        same.metadata() == athlete.metadata(),
    ensures
        pre.mint_cards(origin, athlete)->Ok_0.state.mint_cards(Origin::Signed(again), same) == Err::<
            Registration,
            DispatchError,
        >(DispatchError::Module(Error::AthleteAlreadyExists)),
{
    let minted = pre.mint_cards(origin, athlete)->Ok_0;
    assert(minted.state.athletes.dom().contains(minted.class_id));
}

/// A registration that succeeds leaves exactly 150 cards of the new class:
/// the ledger is asked to create the class and then to mint the cards 0 to
/// 149 for the signer, in this order and nothing else; the cards 0 to 99 are
/// Silver, 100 to 139 Gold and 140 to 149 Platinum; each card has no price
/// and no shares, views or votes. What the store held of any other card is
/// as it was.
pub proof fn lemma_minted_population(
    pre: PalletView,
    who: AccountId,
    athlete: AthleteView<AccountId>,
)
    requires
        pre.mint_cards(Origin::Signed(who), athlete) is Ok,
    ensures
        ({
            let minted = pre.mint_cards(Origin::Signed(who), athlete)->Ok_0;
            let class_id = minted.class_id;
            &&& minted.calls.len() == CARDS_PER_CLASS + 1
            &&& minted.calls[0] == (LedgerCall::CreateClass { class_id, admin: who, owner: who })
            &&& forall|i: InstanceId|
                i < CARDS_PER_CLASS ==> #[trigger] minted.calls[i + 1] == (LedgerCall::MintInto {
                    class_id,
                    instance_id: i,
                    who,
                })
            &&& forall|i: InstanceId|
                i < CARDS_PER_CLASS ==> card_attributes(#[trigger] minted.state.card(class_id, i))
                    == Ok::<AthleteCardAttributes, DispatchError>(
                    AthleteCardAttributes {
                        price: None,
                        total_shares: 0,
                        ty: if i < 100 {
                            AthleteCardClass::Silver
                        } else if i < 140 {
                            AthleteCardClass::Gold
                        } else {
                            AthleteCardClass::Platinum
                        },
                        views: 0,
                        votes: 0,
                    },
                )
            &&& forall|key: CardKey|
                !(key.0 == class_id && key.1 < CARDS_PER_CLASS) ==> #[trigger] minted.state.card(
                    key.0,
                    key.1,
                ) == pre.card(key.0, key.1)
        }),
{
}

/// A registration is refused with `Overflow` when the counter stands at the
/// greatest id, the request is signed and the athlete is not registered.
pub proof fn lemma_registration_overflow(
    pre: PalletView,
    who: AccountId,
    athlete: AthleteView<AccountId>,
)
    requires
        pre.counter == Some(u128::MAX),
        !pre.is_registered(athlete),
    ensures
        pre.mint_cards(Origin::Signed(who), athlete) == Err::<Registration, DispatchError>(
            DispatchError::Overflow,
        ),
{
}

/// A signed request to set the price of a card that has an owner is refused
/// with `MustBeCardOwner` exactly when the signer is not the owner. From the
/// owner it succeeds, also with `None`: then the card's price is the one that
/// came, every other attribute of the card and every other card is as it
/// was, and the invariant of the state is kept.
pub proof fn lemma_only_owner_sets_price(
    pre: PalletView,
    who: AccountId,
    owner: AccountId,
    class_id: ClassId,
    instance_id: InstanceId,
    price: Option<Balance>,
)
    ensures
        who != owner <==> pre.set_card_price(
            Origin::Signed(who),
            class_id,
            instance_id,
            price,
            Some(owner),
        ) == Err::<PalletView, DispatchError>(DispatchError::Module(Error::MustBeCardOwner)),
        who == owner <==> pre.set_card_price(
            Origin::Signed(who),
            class_id,
            instance_id,
            price,
            Some(owner),
        ) is Ok,
        who == owner ==> ({
            let post = pre.set_card_price(
                Origin::Signed(who),
                class_id,
                instance_id,
                price,
                Some(owner),
            )->Ok_0;
            &&& post.card(class_id, instance_id).price == price
            &&& post.card(class_id, instance_id).total_shares == pre.card(
                class_id,
                instance_id,
            ).total_shares
            &&& post.card(class_id, instance_id).ty == pre.card(class_id, instance_id).ty
            &&& post.card(class_id, instance_id).views == pre.card(class_id, instance_id).views
            &&& post.card(class_id, instance_id).votes == pre.card(class_id, instance_id).votes
            &&& forall|key: CardKey|
                key != (class_id, instance_id) ==> #[trigger] post.card(key.0, key.1) == pre.card(
                    key.0,
                    key.1,
                )
            &&& pre.inv() ==> post.inv()
        }),
{
}

/// A purchase of a card without a price is refused with `CardIsNotForSale`
/// when it is signed and the card has an owner: no ledger call comes of it.
pub proof fn lemma_unpriced_card_not_sold(
    pre: PalletView,
    buyer: AccountId,
    owner: AccountId,
    class_id: ClassId,
    instance_id: InstanceId,
)
    requires
        pre.card(class_id, instance_id).price is None,
    ensures
        pre.transfer_card(Origin::Signed(buyer), class_id, instance_id, Some(owner)) == Err::<
            Seq<LedgerCall>,
            DispatchError,
        >(DispatchError::Module(Error::CardIsNotForSale)),
{
}

/// A signed purchase of a card that has an owner and a price succeeds, and
/// it asks for two ledger calls: first the payment of exactly the price from
/// the buyer to the owner, then the transfer of the card to the buyer. The
/// card changes hands only after the payment was made.
pub proof fn lemma_purchase_pays_then_transfers(
    pre: PalletView,
    buyer: AccountId,
    owner: AccountId,
    class_id: ClassId,
    instance_id: InstanceId,
    price: Balance,
)
    requires
        pre.card(class_id, instance_id).price == Some(price),
    ensures
        pre.transfer_card(Origin::Signed(buyer), class_id, instance_id, Some(owner)) is Ok,
        ({
            let calls = pre.transfer_card(
                Origin::Signed(buyer),
                class_id,
                instance_id,
                Some(owner),
            )->Ok_0;
            &&& calls.len() == 2
            &&& calls[0] == (LedgerCall::TransferValue {
                source: buyer,
                dest: owner,
                value: price,
                existence_requirement: ExistenceRequirement::AllowDeath,
            })
            &&& calls[1] == (LedgerCall::TransferCard { class_id, instance_id, destination: buyer })
        }),
{
}

/// Attested counters overwrite what was there: after the privileged
/// authority recorded views and votes of a card, the card has exactly these,
/// its other attributes and every other card are as they were, and the
/// invariant of the state is kept. Any other sender is refused with
/// `BadOrigin`.
pub proof fn lemma_attested_counters_overwrite(
    pre: PalletView,
    origin: Origin,
    class_id: ClassId,
    instance_id: InstanceId,
    views: u32,
    votes: u32,
)
    ensures
        origin is Root <==> pre.submit_athlete_info(origin, class_id, instance_id, views, votes)
            is Ok,
        !(origin is Root) ==> pre.submit_athlete_info(origin, class_id, instance_id, views, votes)
            == Err::<PalletView, DispatchError>(DispatchError::BadOrigin),
        origin is Root ==> ({
            let post = pre.submit_athlete_info(origin, class_id, instance_id, views, votes)->Ok_0;
            &&& post.card(class_id, instance_id).views == Some(views)
            &&& post.card(class_id, instance_id).votes == Some(votes)
            &&& post.card(class_id, instance_id).price == pre.card(class_id, instance_id).price
            &&& post.card(class_id, instance_id).total_shares == pre.card(
                class_id,
                instance_id,
            ).total_shares
            &&& post.card(class_id, instance_id).ty == pre.card(class_id, instance_id).ty
            &&& forall|key: CardKey|
                key != (class_id, instance_id) ==> #[trigger] post.card(key.0, key.1) == pre.card(
                    key.0,
                    key.1,
                )
            &&& pre.inv() ==> post.inv()
        }),
{
}

} // verus!
