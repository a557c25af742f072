//! Who makes a request, and what a refused request reports.

use crate::primitives::bytes32_eq;
use vstd::prelude::*;
use vstd::std_specs::cmp::PartialEqSpecImpl;

verus! {

/// An account of the host, named by its 32-byte public key.
#[derive(Clone, Copy, Debug)]
pub struct AccountId(pub [u8; 32]);

impl AccountId {
    /// The account whose public key is `key`.
    pub fn from_raw(key: [u8; 32]) -> (account: Self)
        ensures
            account.0 == key,
    {
        AccountId(key)
    }
}

impl PartialEq for AccountId {
    fn eq(&self, other: &Self) -> (same: bool) {
        bytes32_eq(&self.0, &other.0)
    }
}

impl Eq for AccountId {

}

impl PartialEqSpecImpl for AccountId {
    open spec fn obeys_eq_spec() -> bool {
        true
    }

    open spec fn eq_spec(&self, other: &Self) -> bool {
        *self == *other
    }
}

/// What the host's authentication made of a request's sender.
#[derive(Clone, Copy, Debug, PartialEq, Eq)]
pub enum Origin {
    /// The privileged authority.
    Root,
    /// An account that signed the request.
    Signed(AccountId),
    /// Nobody in particular.
    Unsigned,
}

/// Why a request on cards was refused.
#[derive(Clone, Copy, Debug, PartialEq, Eq, Structural)]
pub enum Error {
    /// An athlete with the same metadata is registered already.
    AthleteAlreadyExists,
    /// A mandatory attribute was never written.
    CardAttributeDoesNotExist,
    /// The asset ledger knows no owner of the card.
    CardDoesNotHaveAnOwner,
    /// The card has no asking price.
    CardIsNotForSale,
    /// The sender does not own the card.
    MustBeCardOwner,
}

/// Why a request was refused.
#[derive(Clone, Copy, Debug, PartialEq, Eq, Structural)]
pub enum DispatchError {
    /// The sender is not who the request needs.
    BadOrigin,
    /// No class id is left to give out.
    Overflow,
    /// The request on cards was refused.
    Module(Error),
}

/// The account that signed the request, or `BadOrigin` where none did.
pub fn ensure_signed(origin: Origin) -> (who: Result<AccountId, DispatchError>)
    ensures
        who == match origin {
            Origin::Signed(account) => Ok::<AccountId, DispatchError>(account),
            _ => Err(DispatchError::BadOrigin),
        },
{
    match origin {
        Origin::Signed(account) => Ok(account),
        _ => Err(DispatchError::BadOrigin),
    }
}

/// Succeeds for the privileged authority, and reports `BadOrigin` for any
/// other sender.
pub fn ensure_root(origin: Origin) -> (root: Result<(), DispatchError>)
    ensures
        root == if origin is Root {
            Ok::<(), DispatchError>(())
        } else {
            Err(DispatchError::BadOrigin)
        },
{
    match origin {
        Origin::Root => Ok(()),
        _ => Err(DispatchError::BadOrigin),
    }
}

} // verus!
