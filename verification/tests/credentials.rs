use secret_cosmwasm_std::testing::{mock_env, mock_info};
use secret_cosmwasm_std::{MemoryStorage, Storage};
use secret_toolkit::viewing_key::{ViewingKey, ViewingKeyStore};
use secretvars::error::{ContractError, Operation};
use secretvars::viewing_key::{account_storage_key, seed_storage_key, CallContext, KeyStore};

const SHA_256_OF_TEST: [u8; 32] = [
    159, 134, 208, 129, 136, 76, 125, 101, 154, 47, 234, 160, 197, 90, 208, 21, 163, 191, 79, 27,
    43, 11, 130, 44, 209, 93, 108, 21, 176, 240, 10, 8,
];

fn block() -> CallContext {
    CallContext { block_height: 12_345, block_time_nanos: 1_571_797_419_879_305_533 }
}

fn seeded(raw_seed: &[u8]) -> KeyStore {
    let mut store = KeyStore::new();
    store.set_seed(raw_seed);
    store
}

#[test]
fn storage_keys_follow_the_namespace() {
    assert_eq!(seed_storage_key(), b"viewing_keys::seed".to_vec());
    assert_eq!(account_storage_key("viewer1"), b"\x00\x0cviewing_keysviewer1".to_vec());
    assert_eq!(account_storage_key(""), b"\x00\x0cviewing_keys".to_vec());
    assert_eq!(
        account_storage_key("\u{e9}"),
        [b"\x00\x0cviewing_keys".to_vec(), vec![0xc3, 0xa9]].concat()
    );
}

#[test]
fn new_store_holds_nothing() {
    let store = KeyStore::new();
    assert_eq!(store.storage.get(&seed_storage_key()), None);
    assert_eq!(store.storage.get(&account_storage_key("viewer1")), None);
}

#[test]
fn seed_is_kept_as_digest_only() {
    let store = seeded(b"test");
    assert_eq!(store.storage.get(&seed_storage_key()), Some(SHA_256_OF_TEST.to_vec()));
}

#[test]
fn empty_raw_seed_is_accepted() {
    let store = seeded(b"");
    let digest = store.storage.get(&seed_storage_key()).unwrap();
    assert_eq!(digest, secret_toolkit_crypto::sha_256(b"").to_vec());
    assert_eq!(digest.len(), 32);
}

#[test]
fn reseeding_overwrites_the_seed() {
    let mut store = seeded(b"first");
    store.set_seed(b"test");
    assert_eq!(store.storage.get(&seed_storage_key()), Some(SHA_256_OF_TEST.to_vec()));
}

#[test]
fn created_key_is_the_one_the_toolkit_derives() {
    let mut store = seeded(b"test");
    let key = store.create("viewer1", "entropy", &block());

    let mut reference = MemoryStorage::new();
    ViewingKey::set_seed(&mut reference, &SHA_256_OF_TEST);
    let expected =
        ViewingKey::create(&mut reference, &mock_info("viewer1", &[]), &mock_env(), "viewer1", b"entropy");

    assert_eq!(key, expected);
    assert!(key.starts_with("api_key_"));
    assert_eq!(key.len(), "api_key_".len() + 44);
    assert_eq!(
        store.storage.get(&seed_storage_key()),
        reference.get(&seed_storage_key())
    );
    assert_ne!(store.storage.get(&seed_storage_key()), Some(SHA_256_OF_TEST.to_vec()));
}

#[test]
fn created_key_is_recorded_by_its_digest() {
    let mut store = seeded(b"test");
    let key = store.create("viewer1", "entropy", &block());
    assert_eq!(
        store.storage.get(&account_storage_key("viewer1")),
        Some(secret_toolkit_crypto::sha_256(key.as_bytes()).to_vec())
    );
    assert_ne!(store.storage.get(&account_storage_key("viewer1")), Some(key.into_bytes()));
}

#[test]
fn key_is_derived_without_a_seed_too() {
    let mut store = KeyStore::new();
    let key = store.create("viewer1", "entropy", &block());

    let mut reference = MemoryStorage::new();
    let expected =
        ViewingKey::create(&mut reference, &mock_info("viewer1", &[]), &mock_env(), "viewer1", b"entropy");
    assert_eq!(key, expected);
    assert_eq!(store.check("viewer1", &key), Ok(()));
}

#[test]
fn check_accepts_the_key_on_record() {
    let mut store = seeded(b"seed");
    let key = store.create("viewer1", "entropy", &block());
    assert_eq!(store.check("viewer1", &key), Ok(()));
    assert_eq!(store.check("viewer1", &key), Ok(()));
}

#[test]
fn check_rejects_any_other_key() {
    let mut store = seeded(b"seed");
    let key = store.create("viewer1", "entropy", &block());
    let rejected = Err(ContractError::Unauthorized(Operation::CheckViewingKey));
    assert_eq!(store.check("viewer1", "asda"), rejected);
    assert_eq!(store.check("viewer1", ""), rejected);
    assert_eq!(store.check("viewer1", &key[..key.len() - 1]), rejected);
    assert_eq!(store.check("viewer1", &format!("{}x", key)), rejected);
}

#[test]
fn check_rejects_an_account_without_a_key() {
    let mut store = seeded(b"seed");
    let rejected = Err(ContractError::Unauthorized(Operation::CheckViewingKey));
    assert_eq!(store.check("viewer1", "fake key"), rejected);
    let key = store.create("viewer1", "entropy", &block());
    assert_eq!(store.check("viewer2", &key), rejected);
    assert_eq!(store.check("viewer", &key), rejected);
    assert_eq!(store.check("", &key), rejected);
}

#[test]
fn newer_key_replaces_older_key() {
    let mut store = seeded(b"seed");
    let first = store.create("viewer1", "entropy", &block());
    let second = store.create("viewer1", "other entropy", &block());
    assert_ne!(first, second);
    assert_eq!(store.check("viewer1", &second), Ok(()));
    assert_eq!(
        store.check("viewer1", &first),
        Err(ContractError::Unauthorized(Operation::CheckViewingKey))
    );
}

#[test]
fn same_entropy_twice_gives_two_keys() {
    let mut store = seeded(b"seed");
    let first = store.create("viewer1", "entropy", &block());
    let second = store.create("viewer1", "entropy", &block());
    assert_ne!(first, second);
    assert_eq!(store.check("viewer1", &second), Ok(()));
    assert!(store.check("viewer1", &first).is_err());
}

#[test]
fn keys_of_other_accounts_stay_on_record() {
    let mut store = seeded(b"seed");
    let first = store.create("viewer1", "entropy", &block());
    let second = store.create("viewer2", "entropy", &block());
    assert_ne!(first, second);
    assert_eq!(store.check("viewer1", &first), Ok(()));
    assert_eq!(store.check("viewer2", &second), Ok(()));
    assert!(store.check("viewer1", &second).is_err());
    assert!(store.check("viewer2", &first).is_err());
}

#[test]
fn derivation_reads_the_block_time_in_whole_seconds() {
    let early = CallContext { block_height: 7, block_time_nanos: 5_000_000_000 };
    let late = CallContext { block_height: 7, block_time_nanos: 5_999_999_999 };
    let next = CallContext { block_height: 7, block_time_nanos: 6_000_000_000 };
    let key_early = seeded(b"seed").create("viewer1", "entropy", &early);
    let key_late = seeded(b"seed").create("viewer1", "entropy", &late);
    let key_next = seeded(b"seed").create("viewer1", "entropy", &next);
    assert_eq!(key_early, key_late);
    assert_ne!(key_early, key_next);
}

#[test]
fn derivation_reads_height_sender_entropy_and_seed() {
    let base = seeded(b"seed").create("viewer1", "entropy", &block());
    let again = seeded(b"seed").create("viewer1", "entropy", &block());
    assert_eq!(base, again);

    let higher = CallContext { block_height: 12_346, ..block() };
    assert_ne!(base, seeded(b"seed").create("viewer1", "entropy", &higher));
    assert_ne!(base, seeded(b"seed").create("viewer2", "entropy", &block()));
    assert_ne!(base, seeded(b"seed").create("viewer1", "entropy2", &block()));
    assert_ne!(base, seeded(b"other seed").create("viewer1", "entropy", &block()));
}

#[test]
fn derivation_accepts_the_largest_block_time() {
    let last = CallContext { block_height: u64::MAX, block_time_nanos: u64::MAX };
    let mut store = seeded(b"seed");
    let key = store.create("viewer1", "", &last);
    assert_eq!(store.check("viewer1", &key), Ok(()));
}
