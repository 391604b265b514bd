//! Viewing keys: generation from the contract seed and call context, and
//! constant-time verification against a stored digest.

use vstd::prelude::*;

use crate::crypto::{
    base64_encode, base64_of, be_bytes, ct_eq_bytes, prng_block_of, prng_first_block, sha256_of,
    sha_256, timestamp_bytes, timestamp_text, u64_be_bytes, SHA256_HASH_SIZE,
};
use crate::msg::Env;

verus! {

/// Length in bytes of the stored digest of a viewing key.
pub const VIEWING_KEY_SIZE: usize = SHA256_HASH_SIZE;

/// Text that every generated viewing key starts with.
pub const VIEWING_KEY_PREFIX: &'static str = "strongbox_key_";

/// UTF-8 bytes of a text.
pub open spec fn text_bytes(s: Seq<char>) -> Seq<u8> {
    vstd::utf8::encode_utf8(s)
}

/// Constant-time equality of two byte slices: the time taken does not
/// depend on where, or whether, equal-length slices differ.
pub fn ct_slice_compare(s1: &[u8], s2: &[u8]) -> (r: bool)
    ensures
        r == (s1@ == s2@),
{
    ct_eq_bytes(s1, s2)
}

/// Bytes fed to the generator besides the seed: block height (big-endian),
/// block time as text, the viewer's canonical identity, then the entropy.
pub open spec fn rng_entropy(height: u64, time: u64, viewer: Seq<u8>, entropy: Seq<u8>) -> Seq<u8> {
    be_bytes(height) + timestamp_text(time) + viewer + entropy
}

/// The text of the key generated from `seed` and the generator input.
pub open spec fn key_text(seed: Seq<u8>, rng_input: Seq<u8>) -> Seq<char> {
    VIEWING_KEY_PREFIX@ + base64_of(sha256_of(prng_block_of(seed, rng_input)))
}

/// A viewing key in its text form.
#[derive(Clone, Debug, PartialEq)]
pub struct ViewingKey(pub String);

impl ViewingKey {
    /// The bytes that are hashed to store or check this key.
    pub open spec fn spec_bytes(&self) -> Seq<u8> {
        text_bytes(self.0@)
    }

    /// Hashes this key and compares it with `hashed_pw` in constant time.
    pub fn check_viewing_key(&self, hashed_pw: &[u8]) -> (r: bool)
        ensures
            r == (sha256_of(self.spec_bytes()) == hashed_pw@),
    {
        let mine_hashed = sha_256(self.as_bytes());
        ct_slice_compare(mine_hashed.as_slice(), hashed_pw)
    }

    /// Derives a fresh key for `viewer` from the seed, the block the call
    /// runs in, and caller-supplied entropy.
    pub fn new(env: &Env, viewer: &[u8], seed: &[u8], entropy: &[u8]) -> (r: Self)
        ensures
            r.0@ == key_text(
                seed@,
                rng_entropy(env.block.height, env.block.time, viewer@, entropy@),
            ),
    {
        let mut rng_input: Vec<u8> = u64_be_bytes(env.block.height);
        let mut time_text = timestamp_bytes(env.block.time);
        rng_input.append(&mut time_text);
        rng_input.extend_from_slice(viewer);
        rng_input.extend_from_slice(entropy);
        assert(rng_input@ =~= rng_entropy(env.block.height, env.block.time, viewer@, entropy@));
        let rand_slice = prng_first_block(seed, rng_input.as_slice());
        let key = sha_256(rand_slice.as_slice());
        let encoded = base64_encode(key.as_slice());
        let mut text = VIEWING_KEY_PREFIX.to_owned();
        text.append(encoded.as_str());
        assert(text@ =~= VIEWING_KEY_PREFIX@ + encoded@);
        ViewingKey(text)
    }

    /// The UTF-8 bytes of the key's text.
    pub fn as_bytes(&self) -> (r: &[u8])
        ensures
            r@ == self.spec_bytes(),
    {
        self.0.as_str().as_bytes()
    }

    /// The key's text.
    pub fn to_string(&self) -> (r: String)
        ensures
            r@ == self.0@,
    {
        self.0.clone()
    }
}

} // verus!
