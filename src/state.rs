//! Persistent state: the configuration record and the map from viewer
//! identity to the digest of that viewer's viewing key.

use vstd::prelude::*;

use crate::crypto::{bytes_equal, sha256_of, sha_256};
use crate::viewing_key::ViewingKey;

verus! {

/// Required length in bytes of the seed given at initialisation.
pub const INITIAL_SEED_LEN: usize = 32;

/// Required length in bytes of the entropy given to mint a viewing key.
pub const ENTROPY_LEN: usize = 20;

/// The configuration record.
#[derive(Clone, Debug, PartialEq, Eq)]
pub struct State {
    /// Canonical identity of the owner.
    pub owner: Vec<u8>,
    /// The protected value.
    pub strongbox: String,
    /// Digest derived from the seed given at initialisation.
    pub serenity_seed: Vec<u8>,
    /// Digests of every entropy used so far to mint a viewing key.
    pub entropy_hashes: Vec<Vec<u8>>,
}

/// Mathematical model of [`State`].
pub struct StateView {
    pub owner: Seq<u8>,
    pub strongbox: Seq<char>,
    pub serenity_seed: Seq<u8>,
    pub entropy_hashes: Seq<Seq<u8>>,
}

impl View for State {
    type V = StateView;

    open spec fn view(&self) -> StateView {
        StateView {
            owner: self.owner@,
            strongbox: self.strongbox@,
            serenity_seed: self.serenity_seed@,
            entropy_hashes: self.entropy_hashes@.map_values(|h: Vec<u8>| h@),
        }
    }
}

/// The map that entries describe: a later entry for an identity overrides
/// an earlier one.
pub open spec fn entries_map(s: Seq<(Seq<u8>, Seq<u8>)>) -> Map<Seq<u8>, Seq<u8>>
    decreases s.len(),
{
    if s.len() == 0 {
        Map::empty()
    } else {
        entries_map(s.drop_last()).insert(s.last().0, s.last().1)
    }
}

/// Digests of viewing keys, keyed by the viewer's canonical identity.
#[derive(Clone, Debug, PartialEq, Eq)]
pub struct ViewingKeyStore {
    pub entries: Vec<(Vec<u8>, Vec<u8>)>,
}

impl ViewingKeyStore {
    pub open spec fn entries_view(&self) -> Seq<(Seq<u8>, Seq<u8>)> {
        self.entries@.map_values(|e: (Vec<u8>, Vec<u8>)| (e.0@, e.1@))
    }

    /// A store that holds no key.
    pub fn new() -> (r: Self)
        ensures
            r@ == Map::<Seq<u8>, Seq<u8>>::empty(),
    {
        let r = ViewingKeyStore { entries: Vec::new() };
        assert(r.entries_view().len() == 0);
        r
    }
}

impl View for ViewingKeyStore {
    type V = Map<Seq<u8>, Seq<u8>>;

    open spec fn view(&self) -> Map<Seq<u8>, Seq<u8>> {
        entries_map(self.entries_view())
    }
}

/// The stored digest of `owner`'s viewing key, if one is stored.
pub fn read_viewing_key(store: &ViewingKeyStore, owner: &[u8]) -> (r: Option<Vec<u8>>)
    ensures
        r is Some <==> store@.contains_key(owner@),
        r is Some ==> r->0@ == store@[owner@],
{
    let ghost s = store.entries_view();
    let mut i: usize = store.entries.len();
    assert(s.take(i as int) =~= s);
    while i > 0
        invariant
            i <= store.entries@.len(),
            s == store.entries_view(),
            store@.contains_key(owner@) <==> entries_map(s.take(i as int)).contains_key(owner@),
            store@.contains_key(owner@) ==> store@[owner@] == entries_map(s.take(i as int))[owner@],
        decreases i,
    {
        i -= 1;
        assert(s.take(i + 1).drop_last() =~= s.take(i as int));
        assert(s.take(i + 1).last() == s[i as int]);
        let entry = &store.entries[i];
        if bytes_equal(entry.0.as_slice(), owner) {
            return Some(vstd::slice::slice_to_vec(entry.1.as_slice()));
        }
    }
    assert(s.take(0) =~= Seq::<(Seq<u8>, Seq<u8>)>::empty());
    None
}

/// Removes every entry of `owner`, keeping the others in order.
fn remove_entries(store: &mut ViewingKeyStore, owner: &[u8])
    ensures
        final(store)@ == old(store)@.remove(owner@),
{
    let ghost s = old(store).entries_view();
    let mut kept: Vec<(Vec<u8>, Vec<u8>)> = Vec::new();
    let mut i: usize = 0;
    while i < store.entries.len()
        invariant
            store == old(store),
            s == store.entries_view(),
            i <= s.len(),
            entries_map(kept@.map_values(|e: (Vec<u8>, Vec<u8>)| (e.0@, e.1@))) == entries_map(
                s.take(i as int),
            ).remove(owner@),
        decreases s.len() - i,
    {
        let ghost before = kept@.map_values(|e: (Vec<u8>, Vec<u8>)| (e.0@, e.1@));
        assert(s.take(i + 1).drop_last() =~= s.take(i as int));
        assert(s.take(i + 1).last() == s[i as int]);
        let entry = &store.entries[i];
        if !bytes_equal(entry.0.as_slice(), owner) {
            let k = vstd::slice::slice_to_vec(entry.0.as_slice());
            let v = vstd::slice::slice_to_vec(entry.1.as_slice());
            kept.push((k, v));
            let ghost after = kept@.map_values(|e: (Vec<u8>, Vec<u8>)| (e.0@, e.1@));
            assert(after.drop_last() =~= before);
            assert(entries_map(after) =~= entries_map(s.take(i + 1)).remove(owner@));
        } else {
            assert(entries_map(before) =~= entries_map(s.take(i + 1)).remove(owner@));
        }
        i += 1;
    }
    assert(s.take(s.len() as int) =~= s);
    store.entries = kept;
}

/// Stores the digest of `key` as `owner`'s viewing key, replacing any
/// earlier one.
pub fn write_viewing_key(store: &mut ViewingKeyStore, owner: &[u8], key: &ViewingKey)
    ensures
        final(store)@ == old(store)@.insert(owner@, sha256_of(key.spec_bytes())),
{
    remove_entries(store, owner);
    let ghost before = store.entries_view();
    let digest = sha_256(key.as_bytes());
    store.entries.push((vstd::slice::slice_to_vec(owner), digest));
    assert(store.entries_view().drop_last() =~= before);
    assert(store@ =~= old(store)@.remove(owner@).insert(owner@, sha256_of(key.spec_bytes())));
}

/// Removes `owner`'s viewing key, if any.
pub fn revoke_viewing_key(store: &mut ViewingKeyStore, owner: &[u8])
    ensures
        final(store)@ == old(store)@.remove(owner@),
{
    remove_entries(store, owner);
}

} // verus!
