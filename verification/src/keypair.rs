//! Keypair generation and re-derivation of the public address from a secret
//! seed, through `solana_sdk`'s ed25519 keypair type.
use vstd::prelude::*;

use crate::address::Address;
use crate::codec::{encode_b58, encoded_b58};
use solana_sdk::signer::keypair::keypair_from_seed;
use vstd::slice::slice_subrange;

verus! {

/// The ed25519 verifying key that a 32-byte secret seed determines; it
/// depends on the seed alone.
pub uninterp spec fn derived_pubkey(seed: Seq<u8>) -> Seq<u8>;

/// A freshly generated keypair: the public address and the 32-byte secret
/// seed, both as base-58 text.
pub struct KeypairResponse {
    pub pubkey: String,
    pub secret: String,
}

/// Relies on `solana_sdk`'s `Keypair::new` and `Keypair::to_bytes`: 64 bytes,
/// a random 32-byte secret seed followed by the 32-byte verifying key that
/// `SigningKey` derives from that seed.
#[verifier::external_body]
pub(crate) fn random_keypair_bytes() -> (r: Vec<u8>)
    ensures
        r@.len() == 64,
        r@.subrange(32, 64) == derived_pubkey(r@.subrange(0, 32)),
{
    solana_sdk::signature::Keypair::new().to_bytes().to_vec()
}

/// Relies on `solana_sdk`'s `keypair_from_seed` and `Keypair::to_bytes`: a
/// 32-byte seed is accepted, and the last 32 bytes of the keypair are the
/// verifying key derived from that seed alone.
#[verifier::external_body]
pub(crate) fn seed_pubkey_bytes(seed: &[u8]) -> (r: Vec<u8>)
    requires
        seed@.len() == 32,
    ensures
        r@ == derived_pubkey(seed@),
        r@.len() == 32,
{
    let kp = keypair_from_seed(seed).expect("a 32-byte seed is accepted");
    kp.to_bytes()[32..].to_vec()
}

/// Generate a fresh keypair. The secret is the base-58 text of the 32-byte
/// seed, and the public address is the base-58 text of the verifying key
/// derived from that same seed, so re-deriving from the returned secret
/// reproduces the returned address.
pub fn generate_keypair() -> (r: KeypairResponse)
    ensures
        exists|seed: Seq<u8>|
            {
                &&& seed.len() == 32
                &&& r.secret@ == encoded_b58(seed)
                &&& r.pubkey@ == #[trigger] encoded_b58(derived_pubkey(seed))
            },
{
    let kp = random_keypair_bytes();
    let seed: &[u8] = slice_subrange(kp.as_slice(), 0, 32);
    let pk: &[u8] = slice_subrange(kp.as_slice(), 32, 64);
    let secret = encode_b58(seed);
    let pubkey = encode_b58(pk);
    proof {
        assert(pubkey@ == encoded_b58(derived_pubkey(kp@.subrange(0, 32))));
        assert(secret@ == encoded_b58(kp@.subrange(0, 32)));
    }
    KeypairResponse { pubkey, secret }
}

/// Re-derive the public address that a 32-byte secret seed determines;
/// `None` exactly when the seed is not 32 bytes long.
pub fn derive_address(seed: &[u8]) -> (r: Option<Address>)
    ensures
        r is Some <==> seed@.len() == 32,
        r matches Some(a) ==> a@ == derived_pubkey(seed@),
{
    if seed.len() == 32 {
        Some(Address::from_vec(seed_pubkey_bytes(seed)))
    } else {
        None
    }
}

} // verus!
