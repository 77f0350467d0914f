//! Derivation of the wire key of a storage entry.

use vstd::prelude::*;
use vstd::utf8::encode_utf8;

use crate::hashing::{append_bytes, hash, hash_spec, twox_128, twox_128_of, StorageHasher};

verus! {

/// A wire-level storage key: the exact bytes that address a value on the node.
pub struct StorageKey(pub Vec<u8>);

impl View for StorageKey {
    type V = Seq<u8>;

    open spec fn view(&self) -> Seq<u8> {
        self.0@
    }
}

impl StorageKey {
    /// A copy of this key.
    pub fn duplicate(&self) -> (r: StorageKey)
        ensures
            r@ == self@,
    {
        let bytes = self.0.clone();
        assert(bytes@ =~= self.0@);
        StorageKey(bytes)
    }
}

/// The identity of a storage item: the pallet that owns it and its name.
pub struct StorageEntry {
    pub pallet: String,
    pub storage: String,
}

impl StorageEntry {
    /// Describes the item `storage` of the pallet `pallet`.
    pub fn new(pallet: &str, storage: &str) -> (r: StorageEntry)
        ensures
            r.pallet@ == pallet@,
            r.storage@ == storage@,
    {
        StorageEntry { pallet: pallet.to_owned(), storage: storage.to_owned() }
    }
}

/// The prefix shared by every key of an item: the 128-bit xxHash of the pallet
/// name followed by that of the item name, each taken over the UTF-8 bytes.
pub open spec fn prefix_spec(pallet: Seq<char>, storage: Seq<char>) -> Seq<u8> {
    twox_128_of(encode_utf8(pallet)) + twox_128_of(encode_utf8(storage))
}

/// The prefix of the keys of a storage item.
pub struct StorageKeyPrefix(Vec<u8>);

impl View for StorageKeyPrefix {
    type V = Seq<u8>;

    closed spec fn view(&self) -> Seq<u8> {
        self.0@
    }
}

impl StorageKeyPrefix {
    /// The prefix of the keys of `entry`.
    pub fn new(entry: &StorageEntry) -> (r: StorageKeyPrefix)
        ensures
            r@ == prefix_spec(entry.pallet@, entry.storage@),
            r@.len() == 32,
    {
        let mut bytes = twox_128(entry.pallet.as_str().as_bytes());
        let item = twox_128(entry.storage.as_str().as_bytes());
        append_bytes(&mut bytes, item.as_slice());
        StorageKeyPrefix(bytes)
    }

    /// The prefix as a key, to list every key of the item.
    pub fn to_storage_key(self) -> (r: StorageKey)
        ensures
            r@ == self@,
    {
        StorageKey(self.0)
    }
}

/// One map key of an entry: its encoded value and the scheme that hashes it.
pub struct StorageMapKey {
    pub value: Vec<u8>,
    pub hasher: StorageHasher,
}

impl StorageMapKey {
    /// A map key with the encoded value `value`, hashed by `hasher`.
    pub fn new(value: Vec<u8>, hasher: StorageHasher) -> (r: StorageMapKey)
        ensures
            r.value@ == value@,
            r.hasher == hasher,
    {
        StorageMapKey { value, hasher }
    }
}

/// The key plan of an entry: no map keys, or map keys in declared order.
pub enum StorageEntryKey {
    Plain,
    Mapped(Vec<StorageMapKey>),
}

/// The hashed map-key segments, concatenated in order.
pub open spec fn segments_spec(keys: Seq<StorageMapKey>) -> Seq<u8>
    decreases keys.len(),
{
    if keys.len() == 0 {
        Seq::empty()
    } else {
        segments_spec(keys.drop_last()) + hash_spec(keys.last().hasher, keys.last().value@)
    }
}

/// The plain values a key plan is made of: each segment's bytes and scheme.
pub open spec fn plan_spec(key: StorageEntryKey) -> Seq<(Seq<u8>, StorageHasher)> {
    match key {
        StorageEntryKey::Plain => Seq::empty(),
        StorageEntryKey::Mapped(keys) => keys@.map_values(|k: StorageMapKey| (k.value@, k.hasher)),
    }
}

/// The wire key of the entry `pallet`/`storage` under the key plan `key`.
pub open spec fn final_key_spec(pallet: Seq<char>, storage: Seq<char>, key: StorageEntryKey) -> Seq<
    u8,
> {
    match key {
        StorageEntryKey::Plain => prefix_spec(pallet, storage),
        StorageEntryKey::Mapped(keys) => prefix_spec(pallet, storage) + segments_spec(keys@),
    }
}

/// The hashed segments depend only on each map key's bytes and scheme.
proof fn lemma_segments_by_plan(a: Seq<StorageMapKey>, b: Seq<StorageMapKey>)
    requires
        a.map_values(|k: StorageMapKey| (k.value@, k.hasher)) == b.map_values(
            |k: StorageMapKey| (k.value@, k.hasher),
        ),
    ensures
        segments_spec(a) == segments_spec(b),
    decreases a.len(),
{
    let va = a.map_values(|k: StorageMapKey| (k.value@, k.hasher));
    let vb = b.map_values(|k: StorageMapKey| (k.value@, k.hasher));
    assert(a.len() == va.len() && b.len() == vb.len());
    if a.len() > 0 {
        assert(va[a.len() - 1] == vb[b.len() - 1]);
        assert(a.drop_last().map_values(|k: StorageMapKey| (k.value@, k.hasher)) =~= va.drop_last());
        assert(b.drop_last().map_values(|k: StorageMapKey| (k.value@, k.hasher)) =~= vb.drop_last());
        lemma_segments_by_plan(a.drop_last(), b.drop_last());
    }
}

/// Key derivation is deterministic: the same pallet name, item name, map-key
/// bytes and schemes always give the same wire key.
pub proof fn lemma_final_key_deterministic(
    pallet: Seq<char>,
    storage: Seq<char>,
    a: StorageEntryKey,
    b: StorageEntryKey,
)
    requires
        plan_spec(a) == plan_spec(b),
    ensures
        final_key_spec(pallet, storage, a) == final_key_spec(pallet, storage, b),
{
    let pre = prefix_spec(pallet, storage);
    match (a, b) {
        (StorageEntryKey::Mapped(x), StorageEntryKey::Mapped(y)) => {
            lemma_segments_by_plan(x@, y@);
        },
        (StorageEntryKey::Mapped(x), StorageEntryKey::Plain) => {
            assert(x@.len() == plan_spec(a).len());
            assert(pre + segments_spec(x@) =~= pre);
        },
        (StorageEntryKey::Plain, StorageEntryKey::Mapped(y)) => {
            assert(y@.len() == plan_spec(b).len());
            assert(pre + segments_spec(y@) =~= pre);
        },
        _ => {},
    }
}

impl StorageEntryKey {
    /// The wire key of `entry` under this key plan: the entry's prefix followed
    /// by each map key hashed with its own scheme, in declared order.
    pub fn final_key(&self, entry: &StorageEntry) -> (r: StorageKey)
        ensures
            r@ == final_key_spec(entry.pallet@, entry.storage@, *self),
            r@.len() >= 32,
            r@.subrange(0, 32) == prefix_spec(entry.pallet@, entry.storage@),
    {
        let prefix = StorageKeyPrefix::new(entry);
        let mut bytes = prefix.0;
        let ghost pre = bytes@;
        if let StorageEntryKey::Mapped(map_keys) = self {
            let mut i: usize = 0;
            while i < map_keys.len()
                invariant
                    i <= map_keys@.len(),
                    pre.len() == 32,
                    bytes@ == pre + segments_spec(map_keys@.subrange(0, i as int)),
                decreases map_keys@.len() - i,
            {
                let seg = hash(&map_keys[i].hasher, map_keys[i].value.as_slice());
                append_bytes(&mut bytes, seg.as_slice());
                proof {
                    let sub = map_keys@.subrange(0, i + 1);
                    assert(sub.drop_last() =~= map_keys@.subrange(0, i as int));
                    assert(sub.last() == map_keys@[i as int]);
                }
                i = i + 1;
                assert(bytes@ =~= pre + segments_spec(map_keys@.subrange(0, i as int)));
            }
            assert(map_keys@.subrange(0, map_keys@.len() as int) =~= map_keys@);
        }
        assert(bytes@.subrange(0, 32) =~= pre);
        StorageKey(bytes)
    }
}

} // verus!
