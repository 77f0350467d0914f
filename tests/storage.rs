use std::collections::BTreeMap;

use storage_query::client::{StorageClient, StorageError};
use storage_query::decode::DecodeValue;
use storage_query::hashing::{hash, StorageHasher};
use storage_query::iter::{IterPhase, IterStep, KeyIter};
use storage_query::key::{StorageEntry, StorageEntryKey, StorageKey, StorageKeyPrefix, StorageMapKey};
use storage_query::metadata::{Metadata, MetadataError, PalletMetadata, StorageMetadata};

fn unhex(s: &str) -> Vec<u8> {
    (0..s.len()).step_by(2).map(|i| u8::from_str_radix(&s[i..i + 2], 16).unwrap()).collect()
}

fn metadata() -> Metadata {
    Metadata::new(vec![PalletMetadata {
        name: "Balances".to_string(),
        storage: vec![
            StorageMetadata { name: "TotalIssuance".to_string(), default: vec![0u8; 16] },
            StorageMetadata { name: "Broken".to_string(), default: vec![1, 2] },
        ],
    }])
}

#[test]
fn golden_vectors_empty_input() {
    assert_eq!(hash(&StorageHasher::Identity, &[]), Vec::<u8>::new());
    assert_eq!(hash(&StorageHasher::Blake2_128, &[]), unhex("cae66941d9efbd404e4d88758ea67670"));
    assert_eq!(hash(&StorageHasher::Blake2_128Concat, &[]), unhex("cae66941d9efbd404e4d88758ea67670"));
    assert_eq!(
        hash(&StorageHasher::Blake2_256, &[]),
        unhex("0e5751c026e543b2e8ab2eb06099daa1d1e5df47778f7787faab45cdf12fe3a8")
    );
    assert_eq!(hash(&StorageHasher::Twox128, &[]), unhex("99e9d85137db46ef4bbea33613baafd5"));
    assert_eq!(
        hash(&StorageHasher::Twox256, &[]),
        unhex("99e9d85137db46ef4bbea33613baafd56f963c64b1f3685a4eb4abd67ff6203a")
    );
    assert_eq!(hash(&StorageHasher::Twox64Concat, &[]), unhex("99e9d85137db46ef"));
}

#[test]
fn golden_vectors_abc() {
    let abc = b"abc";
    assert_eq!(hash(&StorageHasher::Identity, abc), abc.to_vec());
    assert_eq!(hash(&StorageHasher::Blake2_128, abc), unhex("cf4ab791c62b8d2b2109c90275287816"));
    assert_eq!(
        hash(&StorageHasher::Blake2_128Concat, abc),
        unhex("cf4ab791c62b8d2b2109c90275287816616263")
    );
    assert_eq!(
        hash(&StorageHasher::Blake2_256, abc),
        unhex("bddd813c634239723171ef3fee98579b94964e3bb1cb3e427262c8c068d52319")
    );
    assert_eq!(hash(&StorageHasher::Twox128, abc), unhex("990977adf52cbc440889329981caa9be"));
    assert_eq!(
        hash(&StorageHasher::Twox256, abc),
        unhex("990977adf52cbc440889329981caa9bef7da5770b2b8a05303b75d95360dd62b")
    );
    assert_eq!(hash(&StorageHasher::Twox64Concat, abc), unhex("990977adf52cbc44616263"));
}

#[test]
fn concat_schemes_keep_preimage() {
    let data = vec![7u8, 0, 255, 42, 13];
    let b = hash(&StorageHasher::Blake2_128Concat, &data);
    assert_eq!(b.len(), 16 + data.len());
    assert_eq!(&b[16..], &data[..]);
    let t = hash(&StorageHasher::Twox64Concat, &data);
    assert_eq!(t.len(), 8 + data.len());
    assert_eq!(&t[8..], &data[..]);
}

#[test]
fn derivation_is_deterministic() {
    let entry = StorageEntry::new("System", "Account");
    let plan = || {
        StorageEntryKey::Mapped(vec![
            StorageMapKey::new(vec![1, 2, 3], StorageHasher::Twox64Concat),
            StorageMapKey::new(vec![4, 5], StorageHasher::Blake2_256),
        ])
    };
    let a = plan().final_key(&entry);
    let b = plan().final_key(&entry);
    assert_eq!(a.0, b.0);
    assert_eq!(a.0.len(), 32 + 8 + 3 + 32);
}

#[test]
fn segments_follow_declared_order() {
    let entry = StorageEntry::new("System", "Account");
    let key = StorageEntryKey::Mapped(vec![
        StorageMapKey::new(vec![9], StorageHasher::Identity),
        StorageMapKey::new(b"abc".to_vec(), StorageHasher::Twox64Concat),
    ])
    .final_key(&entry);
    let mut expected =
        unhex("26aa394eea5630e07c48ae0c9558cef7b99d880ec681799c0cf30e8886371da9");
    expected.push(9);
    expected.extend(unhex("990977adf52cbc44616263"));
    assert_eq!(key.0, expected);
}

#[test]
fn total_issuance_prefix_and_value() {
    let entry = StorageEntry::new("Balances", "TotalIssuance");
    let key = StorageEntryKey::Plain.final_key(&entry);
    assert_eq!(key.0, unhex("c2261276cc9d1f8598ea4b6a74b15c2f57c875e4cff74148e4628f264b974c80"));
    let prefix = StorageKeyPrefix::new(&entry).to_storage_key();
    assert_eq!(prefix.0, key.0);

    let client = StorageClient::new(metadata());
    let value: u128 = 123_456_789_012_345_678_901_234_567u128;
    let stored = value.to_le_bytes().to_vec();
    let r = client.fetch_unhashed::<u128>(Some(stored));
    assert_eq!(r, Ok(Some(value)));
}

#[test]
fn account_key_tail_is_account_id() {
    let entry = StorageEntry::new("System", "Account");
    let account_id: Vec<u8> = (0u8..32).collect();
    let key = StorageEntryKey::Mapped(vec![StorageMapKey::new(
        account_id.clone(),
        StorageHasher::Blake2_128Concat,
    )])
    .final_key(&entry);
    assert_eq!(key.0.len(), 32 + 16 + 32);
    assert_eq!(&key.0[..32], &unhex("26aa394eea5630e07c48ae0c9558cef7b99d880ec681799c0cf30e8886371da9")[..]);
    assert_eq!(&key.0[48..], &account_id[..]);
}

#[test]
fn absent_is_none_and_corrupt_is_error() {
    let client = StorageClient::new(metadata());
    assert_eq!(client.fetch_unhashed::<u128>(None), Ok(None));
    assert_eq!(client.fetch_unhashed::<u128>(Some(vec![1, 2, 3])), Err(StorageError::Decode));
    assert_eq!(client.fetch_unhashed::<u64>(Some(vec![])), Err(StorageError::Decode));
    assert_eq!(client.fetch_unhashed::<u32>(Some(vec![1, 0, 0, 0, 99])), Ok(Some(1)));
}

#[test]
fn decode_reads_little_endian() {
    assert_eq!(u32::decode_value(&[0x78, 0x56, 0x34, 0x12]), Some(0x1234_5678));
    assert_eq!(u64::decode_value(&[1, 0, 0, 0, 0, 0, 0, 1]), Some(0x0100_0000_0000_0001));
    assert_eq!(u64::decode_value(&[1, 2, 3, 4, 5, 6, 7]), None);
    let mut bytes = vec![0u8; 16];
    bytes[15] = 0x80;
    assert_eq!(u128::decode_value(&bytes), Some(1u128 << 127));
}

#[test]
fn stored_value_wins_over_default() {
    let client = StorageClient::new(metadata());
    let entry = StorageEntry::new("Balances", "TotalIssuance");
    let stored = 5u128.to_le_bytes().to_vec();
    assert_eq!(client.fetch_or_default::<u128>(&entry, Some(stored)), Ok(5));
    assert_eq!(client.fetch_or_default::<u128>(&entry, Some(vec![5])), Err(StorageError::Decode));
}

#[test]
fn default_fallback_and_lookup_failures() {
    let client = StorageClient::new(metadata());
    let entry = StorageEntry::new("Balances", "TotalIssuance");
    assert_eq!(client.fetch_or_default::<u128>(&entry, None), Ok(0));
    let missing_pallet = StorageEntry::new("Staking", "TotalIssuance");
    assert_eq!(
        client.fetch_or_default::<u128>(&missing_pallet, None),
        Err(StorageError::Metadata(MetadataError::PalletNotFound))
    );
    let missing_item = StorageEntry::new("Balances", "Locks");
    assert_eq!(
        client.fetch_or_default::<u128>(&missing_item, None),
        Err(StorageError::Metadata(MetadataError::StorageNotFound))
    );
    let broken = StorageEntry::new("Balances", "Broken");
    assert_eq!(
        client.fetch_or_default::<u32>(&broken, None),
        Err(StorageError::Metadata(MetadataError::DefaultError))
    );
}

#[test]
fn metadata_lookup() {
    let m = metadata();
    assert_eq!(m.default_value(&"Balances".to_string(), &"Broken".to_string()), Ok(vec![1, 2]));
    assert_eq!(
        m.default_value(&"System".to_string(), &"Account".to_string()),
        Err(MetadataError::PalletNotFound)
    );
}

struct Node {
    prefix: Vec<u8>,
    map: BTreeMap<Vec<u8>, Vec<u8>>,
    page_requests: usize,
}

impl Node {
    fn list_keys(&mut self, prefix: &[u8], after: Option<&[u8]>, limit: u32) -> Vec<StorageKey> {
        self.page_requests += 1;
        self.map
            .keys()
            .filter(|k| k.starts_with(prefix))
            .filter(|k| after.map_or(true, |a| k.as_slice() > a))
            .take(limit as usize)
            .map(|k| StorageKey(k.clone()))
            .collect()
    }

    fn read_many(&self, keys: &[StorageKey]) -> Vec<(StorageKey, Option<Vec<u8>>)> {
        keys.iter().map(|k| (StorageKey(k.0.clone()), self.map.get(&k.0).cloned())).collect()
    }
}

fn node_with(entry: &StorageEntry, n: u8) -> Node {
    let prefix = StorageKeyPrefix::new(entry).to_storage_key().0;
    let mut map = BTreeMap::new();
    for i in 0..n {
        let key = StorageEntryKey::Mapped(vec![StorageMapKey::new(vec![i], StorageHasher::Identity)])
            .final_key(entry);
        map.insert(key.0, (i as u32).to_le_bytes().to_vec());
    }
    Node { prefix, map, page_requests: 0 }
}

/// Drives `iter` against `node`, deleting `delete` after it is listed.
fn drain(iter: &mut KeyIter, node: &mut Node, delete: Option<Vec<u8>>) -> Vec<(Vec<u8>, u32)> {
    let mut out = Vec::new();
    loop {
        match iter.next::<u32>().unwrap() {
            IterStep::Item(k, v) => out.push((k.0, v)),
            IterStep::FetchKeys(req) => {
                assert_eq!(req.prefix.0, node.prefix);
                let keys = node.list_keys(
                    &req.prefix.0,
                    req.start_key.as_ref().map(|k| k.0.as_slice()),
                    req.count,
                );
                iter.page_received(&keys);
                if let Some(d) = &delete {
                    if keys.iter().any(|k| &k.0 == d) {
                        node.map.remove(d);
                    }
                }
                let changes = node.read_many(&keys);
                iter.values_received(&changes);
            }
            IterStep::Done => return out,
        }
    }
}

#[test]
fn pagination_yields_every_key_once() {
    let entry = StorageEntry::new("System", "Account");
    let mut node = node_with(&entry, 5);
    let mut iter = KeyIter::new(&entry, 2);
    assert_eq!(iter.phase(), IterPhase::Filling);
    let out = drain(&mut iter, &mut node, None);
    assert_eq!(out.len(), 5);
    let mut values: Vec<u32> = out.iter().map(|p| p.1).collect();
    values.sort();
    assert_eq!(values, vec![0, 1, 2, 3, 4]);
    let mut keys: Vec<Vec<u8>> = out.iter().map(|p| p.0.clone()).collect();
    keys.dedup();
    assert_eq!(keys.len(), 5);
    assert_eq!(node.page_requests, 4);
    assert_eq!(iter.phase(), IterPhase::Exhausted);
    for _ in 0..3 {
        assert!(matches!(iter.next::<u32>(), Ok(IterStep::Done)));
    }
    assert_eq!(node.page_requests, 4);
}

#[test]
fn pages_forward_pairs_within_page_reversed() {
    let entry = StorageEntry::new("System", "Account");
    let mut node = node_with(&entry, 4);
    let mut iter = KeyIter::new(&entry, 2);
    let values: Vec<u32> = drain(&mut iter, &mut node, None).iter().map(|p| p.1).collect();
    assert_eq!(values, vec![1, 0, 3, 2]);
}

#[test]
fn deleted_key_is_skipped() {
    let entry = StorageEntry::new("System", "Account");
    let mut node = node_with(&entry, 5);
    let victim = StorageEntryKey::Mapped(vec![StorageMapKey::new(vec![2], StorageHasher::Identity)])
        .final_key(&entry)
        .0;
    let mut iter = KeyIter::new(&entry, 2);
    let out = drain(&mut iter, &mut node, Some(victim.clone()));
    let mut values: Vec<u32> = out.iter().map(|p| p.1).collect();
    values.sort();
    assert_eq!(values, vec![0, 1, 3, 4]);
    assert!(out.iter().all(|p| p.0 != victim));
}

#[test]
fn empty_map_ends_at_once() {
    let entry = StorageEntry::new("System", "Account");
    let mut node = node_with(&entry, 0);
    let mut iter = KeyIter::new(&entry, 10);
    assert!(drain(&mut iter, &mut node, None).is_empty());
    assert_eq!(node.page_requests, 1);
}

#[test]
fn undecodable_pair_is_an_error() {
    let entry = StorageEntry::new("System", "Account");
    let mut iter = KeyIter::new(&entry, 10);
    let keys = vec![StorageKey(vec![1]), StorageKey(vec![2])];
    iter.page_received(&keys);
    iter.values_received(&vec![(StorageKey(vec![1]), Some(vec![1, 0, 0, 0])), (StorageKey(vec![2]), Some(vec![9]))]);
    assert_eq!(iter.phase(), IterPhase::Draining);
    assert!(matches!(iter.next::<u32>(), Err(StorageError::Decode)));
    match iter.next::<u32>() {
        Ok(IterStep::Item(k, v)) => {
            assert_eq!(k.0, vec![1]);
            assert_eq!(v, 1);
        }
        _ => panic!("expected an item"),
    }
    match iter.next::<u32>() {
        Ok(IterStep::FetchKeys(req)) => {
            assert_eq!(req.count, 10);
            assert_eq!(req.start_key.map(|k| k.0), Some(vec![2]));
        }
        _ => panic!("expected a page request"),
    }
}

#[test]
fn fetch_keys_request_uses_prefix() {
    let client = StorageClient::new(metadata());
    let entry = StorageEntry::new("System", "Account");
    let req = client.fetch_keys(&entry, 7, Some(StorageKey(vec![3, 4])));
    assert_eq!(req.prefix.0, unhex("26aa394eea5630e07c48ae0c9558cef7b99d880ec681799c0cf30e8886371da9"));
    assert_eq!(req.count, 7);
    assert_eq!(req.start_key.map(|k| k.0), Some(vec![3, 4]));
    let first = client.fetch_keys(&entry, 1, None);
    assert!(first.start_key.is_none());
}
