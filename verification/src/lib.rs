//! Tiered collectible cards for registered athletes: class registration,
//! deterministic minting, typed card attributes and owner-gated sales.
//!
//! The crate owns the counter of class ids, the registry of athletes and the
//! attribute store. Card ownership and account balances belong to two ledgers
//! that the host runs: an entry point takes what the asset ledger reports as
//! an argument, and answers with the ledger calls that the host has to make.
//!
//! - [`primitives`]: identifiers, units and records.
//! - [`hashing`]: the encoding of a card identifier and the hash of a card.
//! - [`origin`]: accounts, senders and errors.
//! - [`attributes`]: the attribute store.
//! - [`ledger`]: the calls to the host's ledgers.
//! - [`pallet`]: the state and the requests.
//! - [`scheduler`]: when the oracle's worker may submit.
//! - [`laws`]: what holds of the requests in every state.
//! - [`table`]: association lists as maps, the model of every table.

pub mod attributes;
pub mod hashing;
pub mod laws;
pub mod ledger;
pub mod origin;
pub mod pallet;
pub mod primitives;
pub mod scheduler;
pub mod table;
