//! Typed reads of storage entries: decode-on-read and default fallback.
//!
//! The read itself goes through the caller's transport; these functions take
//! what it returned (`None` where no value is stored) and decide the result.

use vstd::prelude::*;

use crate::decode::DecodeValue;
use crate::iter::{key_view, KeysRequest};
use crate::key::{prefix_spec, StorageEntry, StorageKey, StorageKeyPrefix};
use crate::metadata::{default_spec, Metadata, MetadataError};

verus! {

/// Why a read could not produce a value.
#[derive(Clone, Copy, Debug, PartialEq, Eq, Structural)]
pub enum StorageError {
    /// Bytes were stored, but they do not decode into the value type.
    Decode,
    /// No value was stored and the declared default could not be had.
    Metadata(MetadataError),
}

/// The bytes of a read result, if any.
pub open spec fn read_view(data: Option<Vec<u8>>) -> Option<Seq<u8>> {
    match data {
        Some(d) => Some(d@),
        None => None,
    }
}

/// The outcome of a read that returned `data`: absence is `None`, bytes that
/// do not decode are an error.
pub open spec fn fetch_spec<V: DecodeValue>(data: Option<Seq<u8>>) -> Result<Option<V>, StorageError> {
    match data {
        None => Ok(None),
        Some(d) => match V::decode_spec(d) {
            Some(v) => Ok(Some(v)),
            None => Err(StorageError::Decode),
        },
    }
}

/// The outcome of a read of `pallet`/`storage` that returned `data`, falling
/// back to the default that `metadata` declares when nothing is stored.
pub open spec fn fetch_or_default_spec<V: DecodeValue>(
    metadata: Metadata,
    pallet: Seq<char>,
    storage: Seq<char>,
    data: Option<Seq<u8>>,
) -> Result<V, StorageError> {
    match fetch_spec::<V>(data) {
        Err(e) => Err(e),
        Ok(Some(v)) => Ok(v),
        Ok(None) => match default_spec(metadata, pallet, storage) {
            Err(e) => Err(StorageError::Metadata(e)),
            Ok(d) => match V::decode_spec(d) {
                Some(v) => Ok(v),
                None => Err(StorageError::Metadata(MetadataError::DefaultError)),
            },
        },
    }
}

/// Absence and corruption are never conflated: a read that returned nothing
/// gives `None`, and one that returned bytes gives a value or a decode error,
/// never `None`.
pub proof fn lemma_absent_vs_corrupt<V: DecodeValue>(bytes: Seq<u8>)
    ensures
        fetch_spec::<V>(None) == Ok::<Option<V>, StorageError>(None),
        fetch_spec::<V>(Some(bytes)) != Ok::<Option<V>, StorageError>(None),
        V::decode_spec(bytes) is None ==> fetch_spec::<V>(Some(bytes)) == Err::<Option<V>, StorageError>(
            StorageError::Decode,
        ),
{
}

/// Where nothing is stored, the declared default is decoded and returned; an
/// unknown pallet or item, or a default that does not decode, is a metadata
/// error.
pub proof fn lemma_default_fallback<V: DecodeValue>(
    metadata: Metadata,
    pallet: Seq<char>,
    storage: Seq<char>,
)
    ensures
        default_spec(metadata, pallet, storage) matches Ok(d) ==> match V::decode_spec(d) {
            Some(v) => fetch_or_default_spec::<V>(metadata, pallet, storage, None) == Ok::<
                V,
                StorageError,
            >(v),
            None => fetch_or_default_spec::<V>(metadata, pallet, storage, None) == Err::<
                V,
                StorageError,
            >(StorageError::Metadata(MetadataError::DefaultError)),
        },
        default_spec(metadata, pallet, storage) matches Err(e) ==> fetch_or_default_spec::<V>(
            metadata,
            pallet,
            storage,
            None,
        ) == Err::<V, StorageError>(StorageError::Metadata(e)),
{
}

/// Client for typed storage reads, holding the node's declared defaults.
pub struct StorageClient {
    pub metadata: Metadata,
}

impl StorageClient {
    /// A client that takes defaults from `metadata`.
    pub fn new(metadata: Metadata) -> (r: StorageClient)
        ensures
            r.metadata == metadata,
    {
        StorageClient { metadata }
    }

    /// Decodes the result `data` of a read of an unhashed key.
    pub fn fetch_unhashed<V: DecodeValue>(&self, data: Option<Vec<u8>>) -> (r: Result<
        Option<V>,
        StorageError,
    >)
        ensures
            r == fetch_spec::<V>(read_view(data)),
    {
        match data {
            Some(d) => match V::decode_value(d.as_slice()) {
                Some(v) => Ok(Some(v)),
                None => Err(StorageError::Decode),
            },
            None => Ok(None),
        }
    }

    /// Decodes the result `data` of a read of `entry`; where nothing was
    /// stored, decodes the default that the metadata declares for it.
    pub fn fetch_or_default<V: DecodeValue>(&self, entry: &StorageEntry, data: Option<Vec<u8>>) -> (r:
        Result<V, StorageError>)
        ensures
            r == fetch_or_default_spec::<V>(
                self.metadata,
                entry.pallet@,
                entry.storage@,
                read_view(data),
            ),
    {
        match self.fetch_unhashed::<V>(data) {
            Err(e) => Err(e),
            Ok(Some(v)) => Ok(v),
            Ok(None) => match self.metadata.default_value(&entry.pallet, &entry.storage) {
                Err(e) => Err(StorageError::Metadata(e)),
                Ok(d) => match V::decode_value(d.as_slice()) {
                    Some(v) => Ok(v),
                    None => Err(StorageError::Metadata(MetadataError::DefaultError)),
                },
            },
        }
    }

    /// The request for up to `count` keys of the map `entry`, in lexicographic
    /// order, that follow `start_key` (from the first key where it is `None`).
    pub fn fetch_keys(&self, entry: &StorageEntry, count: u32, start_key: Option<StorageKey>) -> (r:
        KeysRequest)
        ensures
            r.prefix@ == prefix_spec(entry.pallet@, entry.storage@),
            r.count == count,
            key_view(r.start_key) == key_view(start_key),
    {
        KeysRequest { prefix: StorageKeyPrefix::new(entry).to_storage_key(), count, start_key }
    }
}

} // verus!
