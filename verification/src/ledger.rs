//! What the crate asks of the two ledgers that the host runs.
//!
//! The asset ledger knows who owns which card; the value ledger knows the
//! balance of each account. The crate never reaches into either: an entry
//! point hands back the calls to make, in the order to make them. The host
//! makes them inside the transaction of the request, and undoes the whole
//! request, the crate's own state included, as soon as one of them fails.

use crate::origin::AccountId;
use crate::primitives::{Balance, ClassId, InstanceId};
use vstd::prelude::*;

verus! {

/// Whether a payment may empty the paying account.
#[derive(Clone, Copy, Debug, PartialEq, Eq, Structural)]
pub enum ExistenceRequirement {
    /// The paying account must stay above the ledger's minimum.
    KeepAlive,
    /// The paying account may be emptied and closed.
    AllowDeath,
}

/// One call to a ledger.
#[derive(Clone, Copy, Debug, PartialEq, Eq)]
pub enum LedgerCall {
    /// Asset ledger: create the class `class_id`, run by `admin` and owned by
    /// `owner`.
    CreateClass { class_id: ClassId, admin: AccountId, owner: AccountId },
    /// Asset ledger: mint card `instance_id` of class `class_id` to `who`.
    MintInto { class_id: ClassId, instance_id: InstanceId, who: AccountId },
    /// Value ledger: pay `value` from `source` to `dest`.
    TransferValue {
        source: AccountId,
        dest: AccountId,
        value: Balance,
        existence_requirement: ExistenceRequirement,
    },
    /// Asset ledger: make `destination` the owner of card `instance_id` of
    /// class `class_id`.
    TransferCard { class_id: ClassId, instance_id: InstanceId, destination: AccountId },
}

} // verus!
