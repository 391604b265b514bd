//! The contract's operations: initialisation, the owner-gated changes and
//! the query that discloses the strongbox to holders of a viewing key.

use vstd::prelude::*;

use crate::crypto::{base64_encode, base64_of, bytes_equal, sha256_of, sha_256};
use crate::error::ContractError;
use crate::msg::{Env, ExecuteMsg, InstantiateMsg, QueryMsg, Response, StrongboxResponse};
use crate::state::{
    read_viewing_key, revoke_viewing_key, write_viewing_key, State, StateView, ViewingKeyStore,
    ENTROPY_LEN, INITIAL_SEED_LEN,
};
use crate::viewing_key::{key_text, rng_entropy, text_bytes, ViewingKey, VIEWING_KEY_SIZE};

verus! {

/// Everything the contract keeps between calls.
#[derive(Clone, Debug, PartialEq, Eq)]
pub struct Store {
    pub config: State,
    pub viewing_keys: ViewingKeyStore,
}

/// Mathematical model of [`Store`].
pub struct StoreView {
    pub config: StateView,
    pub viewing_keys: Map<Seq<u8>, Seq<u8>>,
}

impl View for Store {
    type V = StoreView;

    open spec fn view(&self) -> StoreView {
        StoreView { config: self.config@, viewing_keys: self.viewing_keys@ }
    }
}

/// What a state change does: the next state and the key text it hands
/// back, or the error.
pub type Outcome = Result<(StoreView, Option<Seq<char>>), ContractError>;

/// `r` and the state going from `before` to `after` are what `outcome`
/// says; on an error the state is left as it was.
pub open spec fn applied(
    r: Result<Response, ContractError>,
    before: StoreView,
    after: StoreView,
    outcome: Outcome,
) -> bool {
    match outcome {
        Ok((next, data)) => r is Ok && after == next && r->Ok_0.spec_data() == data,
        Err(e) => r == Err::<Response, ContractError>(e) && after == before,
    }
}

/// The digest kept of the seed given at initialisation.
pub open spec fn seed_digest(seed: Seq<char>) -> Seq<u8> {
    sha256_of(text_bytes(base64_of(text_bytes(seed))))
}

pub open spec fn instantiate_outcome(sender: Seq<u8>, seed: Seq<char>) -> Result<
    StoreView,
    ContractError,
> {
    if text_bytes(seed).len() != INITIAL_SEED_LEN {
        Err(ContractError::InvalidSeed)
    } else {
        Ok(
            StoreView {
                config: StateView {
                    owner: sender,
                    strongbox: Seq::empty(),
                    serenity_seed: seed_digest(seed),
                    entropy_hashes: Seq::empty(),
                },
                viewing_keys: Map::empty(),
            },
        )
    }
}

pub open spec fn update_outcome(s: StoreView, sender: Seq<u8>, strongbox: Seq<char>) -> Outcome {
    if sender != s.config.owner {
        Err(ContractError::NotAllowed)
    } else {
        Ok(
            (
                StoreView {
                    config: StateView {
                        owner: s.config.owner,
                        strongbox,
                        serenity_seed: s.config.serenity_seed,
                        entropy_hashes: s.config.entropy_hashes,
                    },
                    viewing_keys: s.viewing_keys,
                },
                None,
            ),
        )
    }
}

pub open spec fn transfer_outcome(s: StoreView, sender: Seq<u8>, new_owner: Seq<u8>) -> Outcome {
    if sender != s.config.owner {
        Err(ContractError::NotAllowed)
    } else {
        Ok(
            (
                StoreView {
                    config: StateView {
                        owner: new_owner,
                        strongbox: s.config.strongbox,
                        serenity_seed: s.config.serenity_seed,
                        entropy_hashes: s.config.entropy_hashes,
                    },
                    viewing_keys: s.viewing_keys,
                },
                None,
            ),
        )
    }
}

/// The text of the key minted for `viewer` in `env` with `entropy`.
pub open spec fn minted_key(s: StoreView, env: Env, viewer: Seq<u8>, entropy: Seq<char>) -> Seq<
    char,
> {
    key_text(
        s.config.serenity_seed,
        rng_entropy(env.block.height, env.block.time, viewer, text_bytes(entropy)),
    )
}

pub open spec fn create_outcome(
    s: StoreView,
    env: Env,
    sender: Seq<u8>,
    entropy: Seq<char>,
    viewer: Seq<u8>,
) -> Outcome {
    let entropy_hash = sha256_of(text_bytes(entropy));
    if text_bytes(entropy).len() != ENTROPY_LEN {
        Err(ContractError::InvalidEntropy)
    } else if sender != s.config.owner {
        Err(ContractError::NotAllowed)
    } else if s.config.entropy_hashes.contains(entropy_hash) {
        Err(ContractError::EntropyAlreadyUsed)
    } else {
        let key = minted_key(s, env, viewer, entropy);
        Ok(
            (
                StoreView {
                    config: StateView {
                        owner: s.config.owner,
                        strongbox: s.config.strongbox,
                        serenity_seed: s.config.serenity_seed,
                        entropy_hashes: s.config.entropy_hashes.push(entropy_hash),
                    },
                    viewing_keys: s.viewing_keys.insert(viewer, sha256_of(text_bytes(key))),
                },
                Some(key),
            ),
        )
    }
}

pub open spec fn revoke_outcome(s: StoreView, sender: Seq<u8>, viewer: Seq<u8>) -> Outcome {
    if sender != s.config.owner {
        Err(ContractError::NotAllowed)
    } else if !s.viewing_keys.contains_key(viewer) {
        Err(ContractError::KeyNotFound)
    } else {
        Ok(
            (
                StoreView { config: s.config, viewing_keys: s.viewing_keys.remove(viewer) },
                None,
            ),
        )
    }
}

pub open spec fn execute_outcome(s: StoreView, env: Env, sender: Seq<u8>, msg: ExecuteMsg) -> Outcome {
    match msg {
        ExecuteMsg::UpdateStrongbox { strongbox } => update_outcome(s, sender, strongbox@),
        ExecuteMsg::CreateViewingKey { viewer, entropy, padding: _ } => create_outcome(
            s,
            env,
            sender,
            entropy@,
            viewer@,
        ),
        ExecuteMsg::TransferOwnership { new_owner } => transfer_outcome(s, sender, new_owner@),
        ExecuteMsg::RevokeViewingKey { viewer } => revoke_outcome(s, sender, viewer@),
    }
}

/// `key` is the viewing key stored for `id`.
pub open spec fn key_accepted(keys: Map<Seq<u8>, Seq<u8>>, id: Seq<u8>, key: Seq<char>) -> bool {
    keys.contains_key(id) && keys[id] == sha256_of(text_bytes(key))
}

/// The strongbox if `key` is accepted for one of `ids`; otherwise the one
/// uniform refusal.
pub open spec fn query_outcome(s: StoreView, ids: Seq<Seq<u8>>, key: Seq<char>) -> Result<
    Seq<char>,
    ContractError,
> {
    if exists|i: int| 0 <= i < ids.len() && key_accepted(s.viewing_keys, #[trigger] ids[i], key) {
        Ok(s.config.strongbox)
    } else {
        Err(ContractError::KeyMismatch)
    }
}

/// Sets the contract up with `sender` as owner.
pub fn instantiate(sender: Vec<u8>, msg: InstantiateMsg) -> (r: Result<Store, ContractError>)
    ensures
        match instantiate_outcome(sender@, msg.serenity_seed@) {
            Ok(v) => r is Ok && r->Ok_0@ == v,
            Err(e) => r == Err::<Store, ContractError>(e),
        },
{
    let initial_seed = msg.serenity_seed;
    let seed_bytes = initial_seed.as_str().as_bytes();
    if seed_bytes.len() != INITIAL_SEED_LEN {
        return Err(ContractError::InvalidSeed);
    }
    let encoded = base64_encode(seed_bytes);
    let serenity_seed = sha_256(encoded.as_str().as_bytes());
    let state = State {
        owner: sender,
        strongbox: String::new(),
        serenity_seed,
        entropy_hashes: Vec::new(),
    };
    let store = Store { config: state, viewing_keys: ViewingKeyStore::new() };
    assert(store@.config.entropy_hashes =~= Seq::<Seq<u8>>::empty());
    Ok(store)
}

/// Replaces the strongbox; only the owner may.
pub fn try_update_strongbox(store: &mut Store, sender: Vec<u8>, strongbox: String) -> (r: Result<
    Response,
    ContractError,
>)
    ensures
        applied(r, old(store)@, final(store)@, update_outcome(old(store)@, sender@, strongbox@)),
{
    if !bytes_equal(sender.as_slice(), store.config.owner.as_slice()) {
        return Err(ContractError::NotAllowed);
    }
    store.config.strongbox = strongbox;
    Ok(Response { data: None })
}

/// Whether `digests` holds `digest`.
fn contains_digest(digests: &Vec<Vec<u8>>, digest: &[u8]) -> (r: bool)
    ensures
        r == digests@.map_values(|h: Vec<u8>| h@).contains(digest@),
{
    let ghost view = digests@.map_values(|h: Vec<u8>| h@);
    let mut i: usize = 0;
    while i < digests.len()
        invariant
            i <= digests@.len(),
            view == digests@.map_values(|h: Vec<u8>| h@),
            forall|j: int| 0 <= j < i ==> view[j] != digest@,
        decreases digests@.len() - i,
    {
        if bytes_equal(digests[i].as_slice(), digest) {
            assert(view[i as int] == digest@);
            return true;
        }
        i += 1;
    }
    false
}

/// Mints a viewing key for `viewer` from the contract seed, the block and
/// `entropy`, stores only its digest, and hands the key back once. Only the
/// owner may, and each entropy serves once.
pub fn try_create_viewing_key(
    store: &mut Store,
    env: &Env,
    sender: Vec<u8>,
    entropy: String,
    viewer: Vec<u8>,
) -> (r: Result<Response, ContractError>)
    ensures
        applied(
            r,
            old(store)@,
            final(store)@,
            create_outcome(old(store)@, *env, sender@, entropy@, viewer@),
        ),
{
    let entropy_bytes = entropy.as_str().as_bytes();
    if entropy_bytes.len() != ENTROPY_LEN {
        return Err(ContractError::InvalidEntropy);
    }
    if !bytes_equal(sender.as_slice(), store.config.owner.as_slice()) {
        return Err(ContractError::NotAllowed);
    }
    let entropy_hash = sha_256(entropy_bytes);
    if contains_digest(&store.config.entropy_hashes, entropy_hash.as_slice()) {
        return Err(ContractError::EntropyAlreadyUsed);
    }
    let key = ViewingKey::new(
        env,
        viewer.as_slice(),
        store.config.serenity_seed.as_slice(),
        entropy_bytes,
    );
    let ghost hashes = store@.config.entropy_hashes;
    store.config.entropy_hashes.push(entropy_hash);
    assert(store@.config.entropy_hashes =~= hashes.push(sha256_of(text_bytes(entropy@))));
    write_viewing_key(&mut store.viewing_keys, viewer.as_slice(), &key);
    Ok(Response { data: Some(key) })
}

/// Hands ownership to `new_owner`; only the owner may.
pub fn try_transfer_ownership(store: &mut Store, sender: Vec<u8>, new_owner: Vec<u8>) -> (r: Result<
    Response,
    ContractError,
>)
    ensures
        applied(r, old(store)@, final(store)@, transfer_outcome(old(store)@, sender@, new_owner@)),
{
    if !bytes_equal(sender.as_slice(), store.config.owner.as_slice()) {
        return Err(ContractError::NotAllowed);
    }
    store.config.owner = new_owner;
    Ok(Response { data: None })
}

/// Removes `viewer`'s viewing key; only the owner may, and only a key that
/// is there.
pub fn try_revoke_viewing_key(store: &mut Store, sender: Vec<u8>, viewer: Vec<u8>) -> (r: Result<
    Response,
    ContractError,
>)
    ensures
        applied(r, old(store)@, final(store)@, revoke_outcome(old(store)@, sender@, viewer@)),
{
    if !bytes_equal(sender.as_slice(), store.config.owner.as_slice()) {
        return Err(ContractError::NotAllowed);
    }
    let viewer_key = read_viewing_key(&store.viewing_keys, viewer.as_slice());
    if viewer_key.is_none() {
        return Err(ContractError::KeyNotFound);
    }
    revoke_viewing_key(&mut store.viewing_keys, viewer.as_slice());
    Ok(Response { data: None })
}

/// Runs the state change that `msg` asks for on behalf of `sender`.
pub fn execute(store: &mut Store, env: &Env, sender: Vec<u8>, msg: ExecuteMsg) -> (r: Result<
    Response,
    ContractError,
>)
    ensures
        applied(r, old(store)@, final(store)@, execute_outcome(old(store)@, *env, sender@, msg)),
{
    match msg {
        ExecuteMsg::UpdateStrongbox { strongbox } => try_update_strongbox(store, sender, strongbox),
        ExecuteMsg::CreateViewingKey { viewer, entropy, padding: _ } => try_create_viewing_key(
            store,
            env,
            sender,
            entropy,
            viewer,
        ),
        ExecuteMsg::TransferOwnership { new_owner } => try_transfer_ownership(
            store,
            sender,
            new_owner,
        ),
        ExecuteMsg::RevokeViewingKey { viewer } => try_revoke_viewing_key(store, sender, viewer),
    }
}

/// Discloses the strongbox if the query's key is accepted for one of its
/// identities. An identity with no key is still checked, against a zero
/// digest, so that it takes as long as a wrong key; both give the same
/// error.
pub fn query(store: &Store, msg: QueryMsg) -> (r: Result<StrongboxResponse, ContractError>)
    ensures
        match query_outcome(store@, msg.spec_identities(), msg.spec_key()) {
            Ok(v) => r is Ok && r->Ok_0.strongbox@ == v,
            Err(e) => r == Err::<StrongboxResponse, ContractError>(e),
        },
{
    let (addresses, key) = msg.get_validation_params();
    let ghost ids = msg.spec_identities();
    let mut i: usize = 0;
    while i < addresses.len()
        invariant
            i <= addresses@.len(),
            addresses@.map_values(|a: Vec<u8>| a@) == ids,
            ids == msg.spec_identities(),
            key.0@ == msg.spec_key(),
            forall|j: int| 0 <= j < i ==> !key_accepted(store@.viewing_keys, #[trigger] ids[j], key.0@),
        decreases addresses@.len() - i,
    {
        let address = &addresses[i];
        assert(address@ == ids[i as int]);
        let expected_key = read_viewing_key(&store.viewing_keys, address.as_slice());
        match expected_key {
            None => {
                let placeholder: Vec<u8> = vec![0u8; VIEWING_KEY_SIZE];
                let _ = key.check_viewing_key(placeholder.as_slice());
            },
            Some(expected) => {
                if key.check_viewing_key(expected.as_slice()) {
                    assert(key_accepted(store@.viewing_keys, ids[i as int], key.0@));
                    return Ok(query_strongbox(store));
                }
            },
        }
        i += 1;
    }
    Err(ContractError::KeyMismatch)
}

fn query_strongbox(store: &Store) -> (r: StrongboxResponse)
    ensures
        r.strongbox@ == store.config.strongbox@,
{
    StrongboxResponse { strongbox: store.config.strongbox.clone() }
}

} // verus!
