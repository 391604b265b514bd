//! Cryptographic primitives supplied by outside crates, each behind one
//! trusted item, and the byte helpers proved here.

use vstd::prelude::*;

use base64::Engine;
use secret_toolkit_crypto::ContractPrng;
use subtle::ConstantTimeEq;

verus! {

/// Length in bytes of a SHA-256 digest.
pub const SHA256_HASH_SIZE: usize = 32;

/// The SHA-256 digest of `data`.
pub uninterp spec fn sha256_of(data: Seq<u8>) -> Seq<u8>;

/// The first 32-byte block drawn from a ChaCha generator keyed by
/// SHA-256 of `seed` followed by `entropy`.
pub uninterp spec fn prng_block_of(seed: Seq<u8>, entropy: Seq<u8>) -> Seq<u8>;

/// The standard (padded) base64 rendering of `data`.
pub uninterp spec fn base64_of(data: Seq<u8>) -> Seq<char>;

/// Relies on secret_toolkit_crypto::sha_256: the digest depends on the bytes
/// alone and is 32 bytes long.
#[verifier::external_body]
pub fn sha_256(data: &[u8]) -> (r: Vec<u8>)
    ensures
        r@ == sha256_of(data@),
        r@.len() == SHA256_HASH_SIZE,
{
    secret_toolkit_crypto::sha_256(data).to_vec()
}

/// Relies on secret_toolkit_crypto::ContractPrng::new and its first call of
/// rand_bytes: a fresh generator is a function of seed and entropy, and its
/// first block is 32 bytes long.
#[verifier::external_body]
pub(crate) fn prng_first_block(seed: &[u8], entropy: &[u8]) -> (r: Vec<u8>)
    ensures
        r@ == prng_block_of(seed@, entropy@),
        r@.len() == 32,
{
    let mut rng = ContractPrng::new(seed, entropy);
    rng.rand_bytes().to_vec()
}

/// Relies on base64's STANDARD engine encode: the text depends on the bytes
/// alone. The engine panics only where the output length overflows usize.
#[verifier::external_body]
pub(crate) fn base64_encode(data: &[u8]) -> (r: String)
    requires
        data@.len() <= usize::MAX / 2,
    ensures
        r@ == base64_of(data@),
{
    base64::engine::general_purpose::STANDARD.encode(data)
}

/// Relies on subtle's ConstantTimeEq for byte slices: true exactly when the
/// slices have the same length and the same bytes.
#[verifier::external_body]
pub(crate) fn ct_eq_bytes(a: &[u8], b: &[u8]) -> (r: bool)
    ensures
        r == (a@ == b@),
{
    bool::from(a.ct_eq(b))
}

/// Relies on cosmwasm_std's Display for Timestamp: whole seconds, a dot,
/// then the nanoseconds within the second as nine digits.
#[verifier::external_body]
pub fn timestamp_bytes(nanos: u64) -> (r: Vec<u8>)
    ensures
        r@ == timestamp_text(nanos),
{
    cosmwasm_std::Timestamp::from_nanos(nanos).to_string().into_bytes()
}

/// ASCII digit for `d < 10`.
pub open spec fn digit_byte(d: nat) -> u8 {
    (48 + d) as u8
}

/// Decimal digits of `n`, without leading zeros.
pub open spec fn decimal_bytes(n: nat) -> Seq<u8>
    decreases n,
{
    if n < 10 {
        seq![digit_byte(n)]
    } else {
        decimal_bytes(n / 10).push(digit_byte(n % 10))
    }
}

/// The last `width` decimal digits of `n`, padded with zeros.
pub open spec fn padded_decimal_bytes(n: nat, width: nat) -> Seq<u8>
    decreases width,
{
    if width == 0 {
        Seq::empty()
    } else {
        padded_decimal_bytes(n / 10, (width - 1) as nat).push(digit_byte(n % 10))
    }
}

/// Text of a block time given in nanoseconds since the epoch.
pub open spec fn timestamp_text(nanos: u64) -> Seq<u8> {
    decimal_bytes(nanos as nat / 1_000_000_000) + seq![46u8] + padded_decimal_bytes(
        nanos as nat % 1_000_000_000,
        9,
    )
}

/// Big-endian bytes of `n`.
pub open spec fn be_bytes(n: u64) -> Seq<u8> {
    seq![
        (n >> 56u64) as u8,
        (n >> 48u64) as u8,
        (n >> 40u64) as u8,
        (n >> 32u64) as u8,
        (n >> 24u64) as u8,
        (n >> 16u64) as u8,
        (n >> 8u64) as u8,
        n as u8,
    ]
}

pub fn u64_be_bytes(n: u64) -> (r: Vec<u8>)
    ensures
        r@ == be_bytes(n),
{
    let mut r: Vec<u8> = Vec::new();
    r.push((n >> 56u64) as u8);
    r.push((n >> 48u64) as u8);
    r.push((n >> 40u64) as u8);
    r.push((n >> 32u64) as u8);
    r.push((n >> 24u64) as u8);
    r.push((n >> 16u64) as u8);
    r.push((n >> 8u64) as u8);
    r.push(n as u8);
    assert(r@ =~= be_bytes(n));
    r
}

/// Plain (not constant-time) equality of byte slices, for values that are
/// not secret.
pub fn bytes_equal(a: &[u8], b: &[u8]) -> (r: bool)
    ensures
        r == (a@ == b@),
{
    if a.len() != b.len() {
        return false;
    }
    let mut i: usize = 0;
    while i < a.len()
        invariant
            a@.len() == b@.len(),
            i <= a@.len(),
            forall|j: int| 0 <= j < i ==> a@[j] == b@[j],
        decreases a@.len() - i,
    {
        if a[i] != b[i] {
            return false;
        }
        i += 1;
    }
    assert(a@ =~= b@);
    true
}

} // verus!
