use serenity_strongbox_contract::crypto::{bytes_equal, sha_256, timestamp_bytes, u64_be_bytes};
use serenity_strongbox_contract::msg::{BlockInfo, Env, QueryMsg};
use serenity_strongbox_contract::state::{
    read_viewing_key, revoke_viewing_key, write_viewing_key, ViewingKeyStore,
};
use serenity_strongbox_contract::viewing_key::{ct_slice_compare, ViewingKey, VIEWING_KEY_PREFIX};

#[test]
fn sha_256_known_digest() {
    let expected: Vec<u8> = vec![
        159, 134, 208, 129, 136, 76, 125, 101, 154, 47, 234, 160, 197, 90, 208, 21, 163, 191, 79,
        27, 43, 11, 130, 44, 209, 93, 108, 21, 176, 240, 10, 8,
    ];
    assert_eq!(sha_256(b"test"), expected);
}

#[test]
fn constant_time_compare() {
    assert!(ct_slice_compare(&[1, 2, 3], &[1, 2, 3]));
    assert!(!ct_slice_compare(&[1, 2, 3], &[1, 2, 4]));
    assert!(!ct_slice_compare(&[1, 2, 3], &[1, 2]));
    assert!(ct_slice_compare(&[], &[]));
}

#[test]
fn plain_compare() {
    assert!(bytes_equal(b"abc", b"abc"));
    assert!(!bytes_equal(b"abc", b"abd"));
    assert!(!bytes_equal(b"abc", b"ab"));
}

#[test]
fn timestamp_text() {
    assert_eq!(timestamp_bytes(1_571_797_419_879_305_533), b"1571797419.879305533".to_vec());
    assert_eq!(timestamp_bytes(5), b"0.000000005".to_vec());
    assert_eq!(timestamp_bytes(0), b"0.000000000".to_vec());
}

#[test]
fn big_endian_bytes() {
    assert_eq!(u64_be_bytes(12_345), vec![0, 0, 0, 0, 0, 0, 0x30, 0x39]);
    assert_eq!(u64_be_bytes(u64::MAX), vec![255; 8]);
}

#[test]
fn key_generation_matches_its_construction() {
    let env = Env { block: BlockInfo { height: 12_345, time: 1_571_797_419_879_305_533 } };
    let seed = [7u8; 32];
    let key = ViewingKey::new(&env, b"sender", &seed, b"entropy");

    let mut input = 12_345u64.to_be_bytes().to_vec();
    input.extend_from_slice(b"1571797419.879305533");
    input.extend_from_slice(b"sender");
    input.extend_from_slice(b"entropy");
    let mut rng = secret_toolkit_crypto::ContractPrng::new(&seed, &input);
    let digest = secret_toolkit_crypto::sha_256(&rng.rand_bytes());
    let encoded = base64::Engine::encode(&base64::engine::general_purpose::STANDARD, digest);
    assert_eq!(key.to_string(), format!("{}{}", VIEWING_KEY_PREFIX, encoded));
    assert_eq!(key.to_string().len(), VIEWING_KEY_PREFIX.len() + 44);
}

#[test]
fn key_checks_against_its_digest() {
    let key = ViewingKey("strongbox_key_abc".to_string());
    let digest = sha_256(key.as_bytes());
    assert!(key.check_viewing_key(&digest));
    assert!(!key.check_viewing_key(&[0u8; 32]));
    assert!(!ViewingKey("other".to_string()).check_viewing_key(&digest));
}

#[test]
fn key_store_write_read_revoke() {
    let mut store = ViewingKeyStore::new();
    assert_eq!(read_viewing_key(&store, b"a"), None);
    let k1 = ViewingKey("one".to_string());
    let k2 = ViewingKey("two".to_string());
    write_viewing_key(&mut store, b"a", &k1);
    write_viewing_key(&mut store, b"b", &k2);
    assert_eq!(read_viewing_key(&store, b"a"), Some(sha_256(b"one")));
    write_viewing_key(&mut store, b"a", &k2);
    assert_eq!(read_viewing_key(&store, b"a"), Some(sha_256(b"two")));
    assert_eq!(store.entries.len(), 2);
    revoke_viewing_key(&mut store, b"a");
    assert_eq!(read_viewing_key(&store, b"a"), None);
    assert_eq!(read_viewing_key(&store, b"b"), Some(sha_256(b"two")));
}

#[test]
fn validation_params() {
    let msg = QueryMsg::GetStrongbox { behalf: b"who".to_vec(), key: "k".to_string() };
    let (ids, key) = msg.get_validation_params();
    assert_eq!(ids, vec![b"who".to_vec()]);
    assert_eq!(key, ViewingKey("k".to_string()));
}
