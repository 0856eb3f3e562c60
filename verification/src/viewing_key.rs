//! The credential manager: viewing keys bound to accounts.
//!
//! A viewing key is a bearer token. It is derived from a seed that the store
//! holds, the account that asks for it, the entropy that the account supplies
//! and the block in which the call runs. The store keeps one digest per
//! account, that of the newest key, and never the key itself.

use vstd::prelude::*;
use vstd::utf8::decode_utf8;
use vstd::utf8::encode_utf8;
use vstd::utf8::encode_utf8_decode_utf8;
use secret_cosmwasm_std::Addr;
use secret_cosmwasm_std::BlockInfo;
use secret_cosmwasm_std::ContractInfo;
use secret_cosmwasm_std::Env;
use secret_cosmwasm_std::MemoryStorage;
use secret_cosmwasm_std::MessageInfo;
use secret_cosmwasm_std::Storage;
use secret_cosmwasm_std::Timestamp;
use secret_toolkit::viewing_key::ViewingKey;
use secret_toolkit::viewing_key::ViewingKeyStore;
use crate::digest::sha_256;
use crate::digest::sha_256_digest;
use crate::digest::DIGEST_SIZE;
use crate::error::ContractError;
use crate::error::Operation;

verus! {

#[verifier::external_type_specification]
#[verifier::external_body]
pub struct ExMemoryStorage(MemoryStorage);

/// What a storage holds: values by key, both plain bytes.
pub type Entries = Map<Seq<u8>, Seq<u8>>;

/// The entries that a storage holds.
pub uninterp spec fn storage_entries(storage: MemoryStorage) -> Map<Seq<u8>, Seq<u8>>;

/// The viewing key that `ViewingKeyStore::create` derives, and the seed that
/// it leaves behind for the next derivation: both are computed from the seed
/// in the store, the block's height, the block's time in whole seconds, the
/// sender's address and the entropy, and from nothing else.
pub uninterp spec fn derived_key(
    seed: Seq<u8>,
    height: u64,
    seconds: u64,
    sender: Seq<char>,
    entropy: Seq<u8>,
) -> (Seq<char>, Seq<u8>);

/// Nanoseconds in a second: block times are kept in nanoseconds.
pub const NANOS_PER_SECOND: u64 = 1_000_000_000;

/// The namespace of the viewing key store, the bytes of `viewing_keys`.
pub open spec fn namespace() -> Seq<u8> {
    seq![118u8, 105u8, 101u8, 119u8, 105u8, 110u8, 103u8, 95u8, 107u8, 101u8, 121u8, 115u8]
}

/// The key under which the seed lies: the namespace, then the bytes of `::seed`.
pub open spec fn seed_key() -> Seq<u8> {
    namespace() + seq![58u8, 58u8, 115u8, 101u8, 101u8, 100u8]
}

/// The key under which an account's digest lies: the length of the namespace
/// in two bytes, high byte first, the namespace, and the account's name in UTF-8.
pub open spec fn account_key(account: Seq<char>) -> Seq<u8> {
    seq![0u8, 12u8] + namespace() + encode_utf8(account)
}

/// The seed that a derivation starts from: the stored one, or none at all.
pub open spec fn stored_seed(entries: Entries) -> Seq<u8> {
    if entries.contains_key(seed_key()) {
        entries[seed_key()]
    } else {
        Seq::empty()
    }
}

/// The digest that is on record for an account, if any.
pub open spec fn stored_digest(entries: Entries, account: Seq<char>) -> Option<Seq<u8>> {
    if entries.contains_key(account_key(account)) {
        Some(entries[account_key(account)])
    } else {
        None
    }
}

/// The digest by which a viewing key is recognised.
pub open spec fn key_digest(viewing_key: Seq<char>) -> Seq<u8> {
    sha_256_digest(encode_utf8(viewing_key))
}

/// The digest that a presented key is compared with: the one on record, or
/// `DIGEST_SIZE` zero bytes for an account without one.
pub open spec fn expected_digest(entries: Entries, account: Seq<char>) -> Seq<u8> {
    match stored_digest(entries, account) {
        Some(digest) => digest,
        None => Seq::new(DIGEST_SIZE as nat, |i: int| 0u8),
    }
}

/// The key that a mint hands out, and the next seed, for a store with these entries.
pub open spec fn minted(
    entries: Entries,
    sender: Seq<char>,
    height: u64,
    nanos: u64,
    entropy: Seq<u8>,
) -> (Seq<char>, Seq<u8>) {
    derived_key(stored_seed(entries), height, (nanos / NANOS_PER_SECOND) as u64, sender, entropy)
}

/// The entries after a mint: the account's digest replaced, the seed advanced,
/// every other entry as it was.
pub open spec fn entries_after_mint(
    entries: Entries,
    sender: Seq<char>,
    height: u64,
    nanos: u64,
    account: Seq<char>,
    entropy: Seq<u8>,
) -> Entries {
    let (key, next_seed) = minted(entries, sender, height, nanos, entropy);
    entries.insert(account_key(account), key_digest(key)).insert(seed_key(), next_seed)
}

/// Calls `MemoryStorage::new`.
///
/// Trusted: a new storage holds no entry.
#[verifier::external_body]
pub(crate) fn storage_new() -> (storage: MemoryStorage)
    ensures
        storage_entries(storage) == Entries::empty(),
{
    MemoryStorage::new()
}

/// Calls `Storage::get` on a `MemoryStorage`.
///
/// Trusted: the result is a copy of the value stored under `key`, and `None`
/// where the storage has no such key.
#[verifier::external_body]
pub(crate) fn storage_get(storage: &MemoryStorage, key: &[u8]) -> (value: Option<Vec<u8>>)
    ensures
        value is Some == storage_entries(*storage).contains_key(key@),
        value matches Some(v) ==> v@ == storage_entries(*storage)[key@],
{
    storage.get(key)
}

/// Calls `ViewingKeyStore::set_seed` of `ViewingKey`.
///
/// Trusted: the seed is stored as given under [`seed_key`], and nothing else
/// changes. An empty seed is left out: the storage panics on an empty value.
#[verifier::external_body]
pub(crate) fn viewing_key_set_seed(storage: &mut MemoryStorage, seed: &[u8])
    requires
        seed@.len() > 0,
    ensures
        storage_entries(*final(storage)) == storage_entries(*old(storage)).insert(seed_key(), seed@),
{
    ViewingKey::set_seed(storage, seed)
}

/// Calls `ViewingKeyStore::create` of `ViewingKey`, in a block of the given
/// height and time and for a message from `sender`.
///
/// Trusted: the key returned is the one that [`derived_key`] names for the
/// stored seed (the empty seed where none is stored) and these arguments; its
/// digest is stored under the account's key and the next seed under
/// [`seed_key`]; no other entry changes.
#[verifier::external_body]
pub(crate) fn viewing_key_create(
    storage: &mut MemoryStorage,
    sender: &str,
    height: u64,
    nanos: u64,
    account: &str,
    entropy: &[u8],
) -> (key: String)
    ensures
        key@ == derived_key(
            stored_seed(storage_entries(*old(storage))),
            height,
            (nanos / NANOS_PER_SECOND) as u64,
            sender@,
            entropy@,
        ).0,
        storage_entries(*final(storage)) == entries_after_mint(
            storage_entries(*old(storage)),
            sender@,
            height,
            nanos,
            account@,
            entropy@,
        ),
{
    let time = Timestamp::from_nanos(nanos);
    let block = BlockInfo { height, time, chain_id: String::new(), random: None };
    let contract = ContractInfo { address: Addr::unchecked(""), code_hash: String::new() };
    let env = Env { block, transaction: None, contract };
    let info = MessageInfo { sender: Addr::unchecked(sender), funds: Vec::new() };
    ViewingKey::create(storage, &info, &env, account, entropy)
}

/// Calls `ViewingKeyStore::check` of `ViewingKey`.
///
/// Trusted: the check passes exactly when the digest of the presented key
/// equals the digest on record for the account, or `DIGEST_SIZE` zero bytes
/// where there is none.
#[verifier::external_body]
pub(crate) fn viewing_key_check(storage: &MemoryStorage, account: &str, viewing_key: &str) -> (ok: bool)
    ensures
        ok == (key_digest(viewing_key@) == expected_digest(storage_entries(*storage), account@)),
{
    ViewingKey::check(storage, account, viewing_key).is_ok()
}

/// The block in which a call runs, as far as a derivation reads it.
#[derive(Clone, Copy, Debug, PartialEq, Eq, Structural)]
pub struct CallContext {
    /// The number of blocks before this one.
    pub block_height: u64,
    /// The time of the block, in nanoseconds since the epoch.
    pub block_time_nanos: u64,
}

/// Two accounts never share a storage key.
pub proof fn lemma_account_keys_differ(a: Seq<char>, b: Seq<char>)
    requires
        a != b,
    ensures
        account_key(a) != account_key(b),
{
    let prefix = seq![0u8, 12u8] + namespace();
    assert(prefix.len() == 14);
    if account_key(a) == account_key(b) {
        assert(account_key(a).subrange(14, account_key(a).len() as int) =~= encode_utf8(a));
        assert(account_key(b).subrange(14, account_key(b).len() as int) =~= encode_utf8(b));
        encode_utf8_decode_utf8(a);
        encode_utf8_decode_utf8(b);
        assert(decode_utf8(encode_utf8(a)) == decode_utf8(encode_utf8(b)));
    }
}

/// No account's storage key is the key of the seed.
pub proof fn lemma_account_key_is_not_seed_key(account: Seq<char>)
    ensures
        account_key(account) != seed_key(),
{
    assert(account_key(account)[0] == 0u8);
    assert(seed_key()[0] == 118u8);
}

/// A mint puts the digest of the new key on record for the account, and
/// leaves the record of every other account as it was.
pub proof fn lemma_mint_records(
    entries: Entries,
    sender: Seq<char>,
    height: u64,
    nanos: u64,
    account: Seq<char>,
    entropy: Seq<u8>,
)
    ensures
        stored_digest(
            entries_after_mint(entries, sender, height, nanos, account, entropy),
            account,
        ) == Some(key_digest(minted(entries, sender, height, nanos, entropy).0)),
        forall|other: Seq<char>|
            other != account ==> #[trigger] stored_digest(
                entries_after_mint(entries, sender, height, nanos, account, entropy),
                other,
            ) == stored_digest(entries, other),
        stored_seed(entries_after_mint(entries, sender, height, nanos, account, entropy))
            == minted(entries, sender, height, nanos, entropy).1,
{
    let after = entries_after_mint(entries, sender, height, nanos, account, entropy);
    lemma_account_key_is_not_seed_key(account);
    assert forall|other: Seq<char>| other != account implies #[trigger] stored_digest(after, other)
        == stored_digest(entries, other) by {
        lemma_account_keys_differ(other, account);
        lemma_account_key_is_not_seed_key(other);
    }
}

/// The storage key of an account.
pub fn account_storage_key(account: &str) -> (key: Vec<u8>)
    ensures
        key@ == account_key(account@),
{
    let mut key: Vec<u8> = vec![
        0u8, 12u8, 118u8, 105u8, 101u8, 119u8, 105u8, 110u8, 103u8, 95u8, 107u8, 101u8, 121u8, 115u8,
    ];
    key.extend_from_slice(account.as_bytes());
    assert(key@ =~= account_key(account@));
    key
}

/// The storage key of the seed.
pub fn seed_storage_key() -> (key: Vec<u8>)
    ensures
        key@ == seed_key(),
{
    let key: Vec<u8> = vec![
        118u8, 105u8, 101u8, 119u8, 105u8, 110u8, 103u8, 95u8, 107u8, 101u8, 121u8, 115u8, 58u8, 58u8,
        115u8, 101u8, 101u8, 100u8,
    ];
    assert(key@ =~= seed_key());
    key
}

/// The viewing keys of one instance.
pub struct KeyStore {
    /// The storage that holds the seed and one digest per account.
    pub storage: MemoryStorage,
}

impl KeyStore {
    /// The entries of the underlying storage.
    pub open spec fn entries(&self) -> Entries {
        storage_entries(self.storage)
    }

    /// The seed of the next derivation.
    pub open spec fn seed(&self) -> Seq<u8> {
        stored_seed(self.entries())
    }

    /// The digest on record for an account.
    pub open spec fn digest_of(&self, account: Seq<char>) -> Option<Seq<u8>> {
        stored_digest(self.entries(), account)
    }

    /// Whether a key is the one on record for an account.
    pub open spec fn verifies(&self, account: Seq<char>, viewing_key: Seq<char>) -> bool {
        self.digest_of(account) == Some(key_digest(viewing_key))
    }

    /// A store without a seed and without keys.
    pub fn new() -> (store: KeyStore)
        ensures
            store.entries() == Entries::empty(),
    {
        KeyStore { storage: storage_new() }
    }

    /// Seeds the store: only the digest of `raw_seed` is kept.
    pub fn set_seed(&mut self, raw_seed: &[u8])
        ensures
            final(self).entries() == old(self).entries().insert(seed_key(), sha_256_digest(raw_seed@)),
            final(self).seed() == sha_256_digest(raw_seed@),
    {
        let hashed = sha_256(raw_seed);
        viewing_key_set_seed(&mut self.storage, hashed.as_slice());
    }

    /// Mints a viewing key for `account` and puts its digest on record, in
    /// place of any earlier one. The key itself is handed out here and never
    /// again.
    pub fn create(&mut self, account: &str, entropy: &str, context: &CallContext) -> (key: String)
        ensures
            key@ == minted(
                old(self).entries(),
                account@,
                context.block_height,
                context.block_time_nanos,
                encode_utf8(entropy@),
            ).0,
            final(self).entries() == entries_after_mint(
                old(self).entries(),
                account@,
                context.block_height,
                context.block_time_nanos,
                account@,
                encode_utf8(entropy@),
            ),
            final(self).verifies(account@, key@),
            forall|other: Seq<char>|
                other != account@ ==> #[trigger] final(self).digest_of(other) == old(self).digest_of(
                    other,
                ),
    {
        proof {
            lemma_mint_records(
                self.entries(),
                account@,
                context.block_height,
                context.block_time_nanos,
                account@,
                encode_utf8(entropy@),
            );
        }
        viewing_key_create(
            &mut self.storage,
            account,
            context.block_height,
            context.block_time_nanos,
            account,
            entropy.as_bytes(),
        )
    }

    /// Checks a presented key against the one on record for `account`. An
    /// account without a key on record is turned away whatever it presents.
    pub fn check(&self, account: &str, viewing_key: &str) -> (result: Result<(), ContractError>)
        ensures
            result == if self.verifies(account@, viewing_key@) {
                Ok::<(), ContractError>(())
            } else {
                Err::<(), ContractError>(ContractError::Unauthorized(Operation::CheckViewingKey))
            },
    {
        let key = account_storage_key(account);
        let on_record = storage_get(&self.storage, key.as_slice());
        if on_record.is_some() && viewing_key_check(&self.storage, account, viewing_key) {
            Ok(())
        } else {
            Err(ContractError::Unauthorized(Operation::CheckViewingKey))
        }
    }
}

} // verus!
