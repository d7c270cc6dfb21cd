//! Fresh bytes for genomes and selectors.
//!
//! The registry asks an [`EntropySource`] for sixteen bytes whenever it makes
//! a kitty. [`ChainEntropy`] derives them from a seed that the chain
//! provides, the caller and the index of the running extrinsic;
//! [`FixedEntropy`] always gives the bytes it was made with.

use crate::account::AccountId;
use vstd::prelude::*;

verus! {

/// A source of sixteen-byte values. Nothing is asked of the bytes: the
/// registry is correct whatever a source returns, and says of its own
/// result what the source says of the bytes.
pub trait EntropySource {
    /// Sixteen bytes for a call made by `caller`.
    fn derive_entropy(&self, caller: &AccountId) -> [u8; 16];
}

/// The digest that `sp_io::hashing::blake2_128` computes of `data`: BLAKE2b
/// with an output of sixteen bytes and no key.
pub uninterp spec fn blake2_128_digest(data: Seq<u8>) -> Seq<u8>;

/// Calls `sp_io::hashing::blake2_128`. The digest is a function of the bytes
/// hashed and of nothing else; which function is not stated here, only named.
#[verifier::external_body]
fn blake2_128(data: &[u8]) -> (digest: [u8; 16])
    ensures
        digest@ == blake2_128_digest(data@),
{
    sp_io::hashing::blake2_128(data)
}

/// The four bytes of `n`, lowest first.
pub open spec fn le_bytes_u32(n: u32) -> Seq<u8> {
    seq![
        (n & 0xff) as u8,
        ((n >> 8) & 0xff) as u8,
        ((n >> 16) & 0xff) as u8,
        ((n >> 24) & 0xff) as u8,
    ]
}

/// SCALE encoding of an optional `u32`: a single 0 for `None`; for `Some` a 1
/// and then the number's four bytes, lowest first.
pub open spec fn scale_option_u32(value: Option<u32>) -> Seq<u8> {
    match value {
        None => seq![0u8],
        Some(n) => seq![1u8] + le_bytes_u32(n),
    }
}

/// The bytes that are hashed into a random value: the seed, the sender and
/// the optional extrinsic index, SCALE-encoded one after the other.
pub open spec fn spec_entropy_payload(
    random_seed: [u8; 32],
    sender: AccountId,
    extrinsic_index: Option<u32>,
) -> Seq<u8> {
    random_seed@ + sender.0@ + scale_option_u32(extrinsic_index)
}

/// Calls `parity_scale_codec::Encode::encode` on the tuple of the three
/// values. SCALE writes a tuple as its fields in order, a byte array as its
/// bytes without a length, and an optional `u32` as `scale_option_u32` says.
#[verifier::external_body]
fn encode_payload(random_seed: &[u8; 32], sender: &[u8; 32], extrinsic_index: Option<u32>) -> (bytes:
    Vec<u8>)
    ensures
        bytes@ == random_seed@ + sender@ + scale_option_u32(extrinsic_index),
{
    parity_scale_codec::Encode::encode(&(random_seed, sender, extrinsic_index))
}

/// Sixteen bytes derived from the chain's random seed, the sender and the
/// index of the extrinsic being executed: the BLAKE2b-128 digest of their
/// SCALE encoding.
pub fn random_value(random_seed: &[u8; 32], sender: &AccountId, extrinsic_index: Option<u32>) -> (value:
    [u8; 16])
    ensures
        value@ == blake2_128_digest(spec_entropy_payload(*random_seed, *sender, extrinsic_index)),
{
    let payload = encode_payload(random_seed, &sender.0, extrinsic_index);
    blake2_128(payload.as_slice())
}

/// Entropy as a chain gives it: what the chain knows while it executes an
/// extrinsic, from which [`random_value`] derives the bytes.
pub struct ChainEntropy {
    /// The seed that the chain offers for the current block.
    pub random_seed: [u8; 32],
    /// Index of the extrinsic being executed, if one is.
    pub extrinsic_index: Option<u32>,
}

impl EntropySource for ChainEntropy {
    fn derive_entropy(&self, caller: &AccountId) -> (value: [u8; 16])
        ensures
            value@ == blake2_128_digest(
                spec_entropy_payload(self.random_seed, *caller, self.extrinsic_index),
            ),
    {
        random_value(&self.random_seed, caller, self.extrinsic_index)
    }
}

/// Entropy pinned to one value, for callers that need to know beforehand
/// what a kitty will be made of.
pub struct FixedEntropy(pub [u8; 16]);

impl EntropySource for FixedEntropy {
    fn derive_entropy(&self, caller: &AccountId) -> (value: [u8; 16])
        ensures
            value == self.0,
    {
        self.0
    }
}

} // verus!
