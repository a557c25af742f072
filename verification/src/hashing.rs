//! The byte encoding of a card identifier and the keyed hash that names a
//! card off the ledger.

use crate::primitives::{AthleteId, CardId, InstanceId, CARD_HASH_KEY};
use vstd::prelude::*;
use vstd::string::StringSliceAdditionalSpecFns;

verus! {

/// Number of bytes in a card hash.
pub const CARD_HASH_BYTES: usize = 32;

/// The `width` lowest base-256 digits of `value`, least significant first.
pub open spec fn le_bytes(value: nat, width: nat) -> Seq<u8>
    decreases width,
{
    if width == 0 {
        Seq::empty()
    } else {
        seq![(value % 256) as u8] + le_bytes(value / 256, (width - 1) as nat)
    }
}

/// The BLAKE2b hash of `data` under `key`, `nn` bytes long, as
/// `blake2_rfc` computes it.
pub uninterp spec fn blake2b_digest(nn: nat, key: Seq<u8>, data: Seq<u8>) -> Seq<u8>;

/// `blake2_rfc::blake2b::blake2b`, with the result's bytes copied out.
///
/// Trusted: the result is the keyed BLAKE2b hash of `data`, and it is `nn`
/// bytes long. The outside function panics unless `nn` is between 1 and 64
/// and the key has at most 64 bytes.
#[verifier::external_body]
fn blake2b(nn: usize, key: &[u8], data: &[u8]) -> (digest: Vec<u8>)
    requires
        1 <= nn <= 64,
        key@.len() <= 64,
    ensures
        digest@ == blake2b_digest(nn as nat, key@, data@),
        digest@.len() == nn,
{
    blake2_rfc::blake2b::blake2b(nn, key, data).as_bytes().to_vec()
}

/// `parity_scale_codec::Encode::encode` on a `u64`.
///
/// Trusted: the encoding is the eight bytes of the number, least significant
/// first.
#[verifier::external_body]
fn scale_encode_u64(value: u64) -> (bytes: Vec<u8>)
    ensures
        bytes@ == le_bytes(value as nat, 8),
{
    parity_scale_codec::Encode::encode(&value)
}

/// `parity_scale_codec::Encode::encode` on a `u32`.
///
/// Trusted: the encoding is the four bytes of the number, least significant
/// first.
#[verifier::external_body]
fn scale_encode_u32(value: u32) -> (bytes: Vec<u8>)
    ensures
        bytes@ == le_bytes(value as nat, 4),
{
    parity_scale_codec::Encode::encode(&value)
}

impl CardId {
    /// The encoding of the identifier: the athlete's id in eight bytes, then
    /// the card's index in four, each least significant byte first.
    pub open spec fn encoding(self) -> Seq<u8> {
        le_bytes(self.athlete_id as nat, 8) + le_bytes(self.instance_id as nat, 4)
    }

    /// Encodes the identifier.
    pub fn encode(&self) -> (bytes: Vec<u8>)
        ensures
            bytes@ == self.encoding(),
    {
        let mut bytes = scale_encode_u64(self.athlete_id);
        let mut tail = scale_encode_u32(self.instance_id);
        bytes.append(&mut tail);
        bytes
    }
}

/// The bytes of the hashing key.
pub open spec fn card_hash_key() -> Seq<u8> {
    CARD_HASH_KEY.spec_bytes()
}

/// The hash that names card `instance_id` of athlete `athlete_id`: the
/// 32-byte BLAKE2b hash of the card identifier's encoding under
/// [`CARD_HASH_KEY`].
pub fn card_hash(athlete_id: AthleteId, instance_id: InstanceId) -> (hash: [u8; 32])
    ensures
        hash@ == blake2b_digest(32, card_hash_key(), (CardId { athlete_id, instance_id }).encoding()),
{
    let key = CARD_HASH_KEY.as_bytes();
    proof {
        reveal_strlit("meta_athlete_nft");
        vstd::string::is_ascii_spec_bytes(CARD_HASH_KEY);
    }
    let data = (CardId { athlete_id, instance_id }).encode();
    let digest = blake2b(CARD_HASH_BYTES, key, data.as_slice());
    let mut hash = [0u8; 32];
    let mut i: usize = 0;
    while i < CARD_HASH_BYTES
        invariant
            i <= CARD_HASH_BYTES,
            digest@.len() == CARD_HASH_BYTES,
            forall|j: int| 0 <= j < i ==> hash@[j] == digest@[j],
        decreases CARD_HASH_BYTES - i,
    {
        hash[i] = digest[i];
        i += 1;
    }
    assert(hash@ =~= digest@);
    hash
}

} // verus!
