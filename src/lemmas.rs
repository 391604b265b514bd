//! What holds across the contract's operations, proved over the models
//! that their contracts speak of.

use vstd::prelude::*;

use crate::contract::{
    create_outcome, instantiate_outcome, minted_key, query_outcome, revoke_outcome,
    transfer_outcome, update_outcome, StoreView,
};
use crate::crypto::sha256_of;
use crate::error::ContractError;
use crate::msg::Env;
use crate::state::{ENTROPY_LEN, INITIAL_SEED_LEN};
use crate::viewing_key::text_bytes;

verus! {

/// A seed of any length but the required one is refused with the
/// validation error, so no state comes into being.
pub proof fn lemma_wrong_seed_refused(sender: Seq<u8>, seed: Seq<char>)
    requires
        text_bytes(seed).len() != INITIAL_SEED_LEN,
    ensures
        instantiate_outcome(sender, seed) == Err::<StoreView, ContractError>(
            ContractError::InvalidSeed,
        ),
{
}

/// Every owner-gated operation called by someone other than the owner is
/// refused with the authorisation error (minting only once its entropy has
/// the right length, as that is checked first); a refusal leaves the state
/// unchanged.
pub proof fn lemma_non_owner_refused(
    s: StoreView,
    env: Env,
    sender: Seq<u8>,
    strongbox: Seq<char>,
    new_owner: Seq<u8>,
    entropy: Seq<char>,
    viewer: Seq<u8>,
)
    requires
        sender != s.config.owner,
    ensures
        update_outcome(s, sender, strongbox) == Err::<(StoreView, Option<Seq<char>>), ContractError>(
            ContractError::NotAllowed,
        ),
        transfer_outcome(s, sender, new_owner) == Err::<
            (StoreView, Option<Seq<char>>),
            ContractError,
        >(ContractError::NotAllowed),
        revoke_outcome(s, sender, viewer) == Err::<(StoreView, Option<Seq<char>>), ContractError>(
            ContractError::NotAllowed,
        ),
        text_bytes(entropy).len() == ENTROPY_LEN ==> create_outcome(
            s,
            env,
            sender,
            entropy,
            viewer,
        ) == Err::<(StoreView, Option<Seq<char>>), ContractError>(ContractError::NotAllowed),
{
}

/// Once an entropy has minted a key, minting again with it, for any viewer
/// and in any block, is refused with the conflict error.
pub proof fn lemma_entropy_single_use(
    s: StoreView,
    env1: Env,
    env2: Env,
    sender: Seq<u8>,
    entropy: Seq<char>,
    viewer1: Seq<u8>,
    viewer2: Seq<u8>,
)
    requires
        create_outcome(s, env1, sender, entropy, viewer1) is Ok,
    ensures
        create_outcome(
            create_outcome(s, env1, sender, entropy, viewer1)->Ok_0.0,
            env2,
            sender,
            entropy,
            viewer2,
        ) == Err::<(StoreView, Option<Seq<char>>), ContractError>(
            ContractError::EntropyAlreadyUsed,
        ),
{
    let next = create_outcome(s, env1, sender, entropy, viewer1)->Ok_0.0;
    let hashes = s.config.entropy_hashes;
    assert(next.config.entropy_hashes[hashes.len() as int] == sha256_of(text_bytes(entropy)));
}

/// Two mints with entropies of distinct digests, neither used before, both
/// succeed.
pub proof fn lemma_distinct_entropy_minted(
    s: StoreView,
    env1: Env,
    env2: Env,
    sender: Seq<u8>,
    entropy1: Seq<char>,
    entropy2: Seq<char>,
    viewer1: Seq<u8>,
    viewer2: Seq<u8>,
)
    requires
        create_outcome(s, env1, sender, entropy1, viewer1) is Ok,
        text_bytes(entropy2).len() == ENTROPY_LEN,
        !s.config.entropy_hashes.contains(sha256_of(text_bytes(entropy2))),
        sha256_of(text_bytes(entropy1)) != sha256_of(text_bytes(entropy2)),
    ensures
        create_outcome(
            create_outcome(s, env1, sender, entropy1, viewer1)->Ok_0.0,
            env2,
            sender,
            entropy2,
            viewer2,
        ) is Ok,
{
    let next = create_outcome(s, env1, sender, entropy1, viewer1)->Ok_0.0;
    let hashes = s.config.entropy_hashes;
    let h2 = sha256_of(text_bytes(entropy2));
    assert(next.config.entropy_hashes == hashes.push(sha256_of(text_bytes(entropy1))));
    if next.config.entropy_hashes.contains(h2) {
        let i = choose|i: int|
            0 <= i < next.config.entropy_hashes.len() && next.config.entropy_hashes[i] == h2;
        if i < hashes.len() {
            assert(hashes[i] == h2);
        }
    }
}

/// A freshly minted key opens the strongbox for its own viewer; for any
/// other identity the query answers as it did before the mint, so an
/// identity that held no key is still refused.
pub proof fn lemma_minted_key_only_for_viewer(
    s: StoreView,
    env: Env,
    sender: Seq<u8>,
    entropy: Seq<char>,
    viewer: Seq<u8>,
    other: Seq<u8>,
)
    requires
        create_outcome(s, env, sender, entropy, viewer) is Ok,
    ensures
        query_outcome(
            create_outcome(s, env, sender, entropy, viewer)->Ok_0.0,
            seq![viewer],
            minted_key(s, env, viewer, entropy),
        ) == Ok::<Seq<char>, ContractError>(s.config.strongbox),
        other != viewer ==> query_outcome(
            create_outcome(s, env, sender, entropy, viewer)->Ok_0.0,
            seq![other],
            minted_key(s, env, viewer, entropy),
        ) == query_outcome(s, seq![other], minted_key(s, env, viewer, entropy)),
        other != viewer && !s.viewing_keys.contains_key(other) ==> query_outcome(
            create_outcome(s, env, sender, entropy, viewer)->Ok_0.0,
            seq![other],
            minted_key(s, env, viewer, entropy),
        ) == Err::<Seq<char>, ContractError>(ContractError::KeyMismatch),
{
    let next = create_outcome(s, env, sender, entropy, viewer)->Ok_0.0;
    let key = minted_key(s, env, viewer, entropy);
    assert(seq![viewer][0] == viewer);
    assert(seq![other][0] == other);
    if other != viewer {
        assert(next.viewing_keys.contains_key(other) == s.viewing_keys.contains_key(other));
    }
}

/// After a viewer's key is revoked, any key presented for that viewer is
/// refused with the same error as one presented for an unknown identity.
pub proof fn lemma_revoked_key_refused(
    s: StoreView,
    sender: Seq<u8>,
    viewer: Seq<u8>,
    key: Seq<char>,
    unknown: Seq<u8>,
)
    requires
        revoke_outcome(s, sender, viewer) is Ok,
        !s.viewing_keys.contains_key(unknown),
    ensures
        query_outcome(revoke_outcome(s, sender, viewer)->Ok_0.0, seq![viewer], key) == Err::<
            Seq<char>,
            ContractError,
        >(ContractError::KeyMismatch),
        query_outcome(s, seq![unknown], key) == Err::<Seq<char>, ContractError>(
            ContractError::KeyMismatch,
        ),
{
    assert(seq![viewer][0] == viewer);
    assert(seq![unknown][0] == unknown);
}

/// After the strongbox is set to `v`, a query that succeeds returns
/// exactly `v`.
pub proof fn lemma_update_then_query(
    s: StoreView,
    sender: Seq<u8>,
    v: Seq<char>,
    ids: Seq<Seq<u8>>,
    key: Seq<char>,
)
    requires
        update_outcome(s, sender, v) is Ok,
        query_outcome(update_outcome(s, sender, v)->Ok_0.0, ids, key) is Ok,
    ensures
        query_outcome(update_outcome(s, sender, v)->Ok_0.0, ids, key) == Ok::<
            Seq<char>,
            ContractError,
        >(v),
{
}

} // verus!
