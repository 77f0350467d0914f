//! Hashing schemes applied to encoded map-key segments.

use vstd::prelude::*;

verus! {

/// The hashing scheme applied to one encoded key segment.
#[allow(non_camel_case_types)]
#[derive(Clone, Copy, Debug, PartialEq, Eq, Structural)]
pub enum StorageHasher {
    Blake2_128,
    Blake2_256,
    Blake2_128Concat,
    Twox128,
    Twox256,
    Twox64Concat,
    Identity,
}

/// The 16-byte BLAKE2b digest of `data`.
pub uninterp spec fn blake2_128_of(data: Seq<u8>) -> Seq<u8>;

/// The 32-byte BLAKE2b digest of `data`.
pub uninterp spec fn blake2_256_of(data: Seq<u8>) -> Seq<u8>;

/// The 8-byte xxHash digest of `data` (one seed).
pub uninterp spec fn twox_64_of(data: Seq<u8>) -> Seq<u8>;

/// The 16-byte xxHash digest of `data` (two seeds).
pub uninterp spec fn twox_128_of(data: Seq<u8>) -> Seq<u8>;

/// The 32-byte xxHash digest of `data` (four seeds).
pub uninterp spec fn twox_256_of(data: Seq<u8>) -> Seq<u8>;

/// Relies on sp_core::blake2_128: a 16-byte digest that depends on the input alone.
#[verifier::external_body]
fn blake2_128(data: &[u8]) -> (r: Vec<u8>)
    ensures
        r@ == blake2_128_of(data@),
        r@.len() == 16,
{
    sp_core::blake2_128(data).to_vec()
}

/// Relies on sp_core::blake2_256: a 32-byte digest that depends on the input alone.
#[verifier::external_body]
fn blake2_256(data: &[u8]) -> (r: Vec<u8>)
    ensures
        r@ == blake2_256_of(data@),
        r@.len() == 32,
{
    sp_core::blake2_256(data).to_vec()
}

/// Relies on sp_core::twox_64: an 8-byte digest that depends on the input alone.
#[verifier::external_body]
fn twox_64(data: &[u8]) -> (r: Vec<u8>)
    ensures
        r@ == twox_64_of(data@),
        r@.len() == 8,
{
    sp_core::twox_64(data).to_vec()
}

/// Relies on sp_core::twox_128: a 16-byte digest that depends on the input alone.
#[verifier::external_body]
pub(crate) fn twox_128(data: &[u8]) -> (r: Vec<u8>)
    ensures
        r@ == twox_128_of(data@),
        r@.len() == 16,
{
    sp_core::twox_128(data).to_vec()
}

/// Relies on sp_core::twox_256: a 32-byte digest that depends on the input alone.
#[verifier::external_body]
fn twox_256(data: &[u8]) -> (r: Vec<u8>)
    ensures
        r@ == twox_256_of(data@),
        r@.len() == 32,
{
    sp_core::twox_256(data).to_vec()
}

/// What `hasher` turns the encoded segment `data` into.
pub open spec fn hash_spec(hasher: StorageHasher, data: Seq<u8>) -> Seq<u8> {
    match hasher {
        StorageHasher::Identity => data,
        StorageHasher::Blake2_128 => blake2_128_of(data),
        StorageHasher::Blake2_128Concat => blake2_128_of(data) + data,
        StorageHasher::Blake2_256 => blake2_256_of(data),
        StorageHasher::Twox128 => twox_128_of(data),
        StorageHasher::Twox256 => twox_256_of(data),
        StorageHasher::Twox64Concat => twox_64_of(data) + data,
    }
}

/// Width of the digest that `hasher` puts before (or in place of) the data.
pub open spec fn digest_len(hasher: StorageHasher) -> nat {
    match hasher {
        StorageHasher::Identity => 0,
        StorageHasher::Blake2_128 => 16,
        StorageHasher::Blake2_128Concat => 16,
        StorageHasher::Blake2_256 => 32,
        StorageHasher::Twox128 => 16,
        StorageHasher::Twox256 => 32,
        StorageHasher::Twox64Concat => 8,
    }
}

/// Whether `hasher` appends the segment verbatim after its digest.
pub open spec fn keeps_preimage(hasher: StorageHasher) -> bool {
    hasher is Identity || hasher is Blake2_128Concat || hasher is Twox64Concat
}

/// Appends `data` to `out`.
pub(crate) fn append_bytes(out: &mut Vec<u8>, data: &[u8])
    ensures
        final(out)@ == old(out)@ + data@,
{
    let ghost start = old(out)@;
    let mut i: usize = 0;
    while i < data.len()
        invariant
            i <= data@.len(),
            out@ == start + data@.subrange(0, i as int),
        decreases data@.len() - i,
    {
        out.push(data[i]);
        i = i + 1;
        assert(out@ =~= start + data@.subrange(0, i as int));
    }
    assert(data@.subrange(0, data@.len() as int) =~= data@);
}

/// Applies `hasher` to the encoded segment `bytes`.
///
/// For the schemes that keep the preimage, the output is the digest followed
/// by `bytes` exactly, so the original segment can be read back from its tail.
pub fn hash(hasher: &StorageHasher, bytes: &[u8]) -> (r: Vec<u8>)
    ensures
        r@ == hash_spec(*hasher, bytes@),
        keeps_preimage(*hasher) ==> r@.len() == digest_len(*hasher) + bytes@.len(),
        !keeps_preimage(*hasher) ==> r@.len() == digest_len(*hasher),
        keeps_preimage(*hasher) ==> r@.subrange(digest_len(*hasher) as int, r@.len() as int)
            == bytes@,
{
    let mut r = match hasher {
        StorageHasher::Identity => Vec::new(),
        StorageHasher::Blake2_128 => blake2_128(bytes),
        StorageHasher::Blake2_128Concat => blake2_128(bytes),
        StorageHasher::Blake2_256 => blake2_256(bytes),
        StorageHasher::Twox128 => twox_128(bytes),
        StorageHasher::Twox256 => twox_256(bytes),
        StorageHasher::Twox64Concat => twox_64(bytes),
    };
    let ghost digest = r@;
    if keeps_preimage_exec(hasher) {
        append_bytes(&mut r, bytes);
        assert(r@.subrange(digest.len() as int, r@.len() as int) =~= bytes@);
    }
    r
}

fn keeps_preimage_exec(hasher: &StorageHasher) -> (r: bool)
    ensures
        r == keeps_preimage(*hasher),
{
    match hasher {
        StorageHasher::Identity | StorageHasher::Blake2_128Concat
        | StorageHasher::Twox64Concat => true,
        _ => false,
    }
}

} // verus!
