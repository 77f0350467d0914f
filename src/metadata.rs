//! The declared defaults of storage items, as reported by the node's metadata.

use vstd::prelude::*;

verus! {

/// A storage item's declared default, as encoded bytes.
pub struct StorageMetadata {
    pub name: String,
    pub default: Vec<u8>,
}

/// The storage items that one pallet declares.
pub struct PalletMetadata {
    pub name: String,
    pub storage: Vec<StorageMetadata>,
}

/// The pallets that the node declares, with their storage items.
pub struct Metadata {
    pub pallets: Vec<PalletMetadata>,
}

/// Why a declared default could not be found.
#[derive(Clone, Copy, Debug, PartialEq, Eq, Structural)]
pub enum MetadataError {
    PalletNotFound,
    StorageNotFound,
    /// The declared default does not decode into the item's value type.
    DefaultError,
}

/// The first pallet in `pallets` named `name`.
pub open spec fn find_pallet(pallets: Seq<PalletMetadata>, name: Seq<char>) -> Option<
    PalletMetadata,
>
    decreases pallets.len(),
{
    if pallets.len() == 0 {
        None
    } else if pallets[0].name@ == name {
        Some(pallets[0])
    } else {
        find_pallet(pallets.drop_first(), name)
    }
}

/// The first storage item in `items` named `name`.
pub open spec fn find_storage(items: Seq<StorageMetadata>, name: Seq<char>) -> Option<
    StorageMetadata,
>
    decreases items.len(),
{
    if items.len() == 0 {
        None
    } else if items[0].name@ == name {
        Some(items[0])
    } else {
        find_storage(items.drop_first(), name)
    }
}

/// The declared default of `pallet`/`storage` in `metadata`.
pub open spec fn default_spec(metadata: Metadata, pallet: Seq<char>, storage: Seq<char>) -> Result<
    Seq<u8>,
    MetadataError,
> {
    match find_pallet(metadata.pallets@, pallet) {
        None => Err(MetadataError::PalletNotFound),
        Some(p) => match find_storage(p.storage@, storage) {
            None => Err(MetadataError::StorageNotFound),
            Some(s) => Ok(s.default@),
        },
    }
}

impl Metadata {
    /// Metadata that declares `pallets`.
    pub fn new(pallets: Vec<PalletMetadata>) -> (r: Metadata)
        ensures
            r.pallets@ == pallets@,
    {
        Metadata { pallets }
    }

    /// The declared default of the item `storage` of the pallet `pallet`.
    pub fn default_value(&self, pallet: &String, storage: &String) -> (r: Result<
        Vec<u8>,
        MetadataError,
    >)
        ensures
            r matches Ok(v) ==> default_spec(*self, pallet@, storage@) == Ok::<Seq<u8>, MetadataError>(v@),
            r matches Err(e) ==> default_spec(*self, pallet@, storage@) == Err::<Seq<u8>, MetadataError>(e),
    {
        let mut i: usize = 0;
        assert(self.pallets@.subrange(0, self.pallets@.len() as int) =~= self.pallets@);
        while i < self.pallets.len()
            invariant
                i <= self.pallets@.len(),
                find_pallet(self.pallets@, pallet@) == find_pallet(
                    self.pallets@.subrange(i as int, self.pallets@.len() as int),
                    pallet@,
                ),
            decreases self.pallets@.len() - i,
        {
            let p = &self.pallets[i];
            let ghost rest = self.pallets@.subrange(i as int, self.pallets@.len() as int);
            assert(rest[0] == *p);
            if p.name == *pallet {
                return match find_default(&p.storage, storage) {
                    Some(d) => Ok(d),
                    None => Err(MetadataError::StorageNotFound),
                };
            }
            assert(rest.drop_first() =~= self.pallets@.subrange(
                i + 1,
                self.pallets@.len() as int,
            ));
            i = i + 1;
        }
        assert(self.pallets@.subrange(i as int, self.pallets@.len() as int)
            =~= Seq::<PalletMetadata>::empty());
        Err(MetadataError::PalletNotFound)
    }
}

/// The default of the first item in `items` named `name`.
fn find_default(items: &Vec<StorageMetadata>, name: &String) -> (r: Option<Vec<u8>>)
    ensures
        r matches Some(v) ==> find_storage(items@, name@) matches Some(s) && s.default@ == v@,
        r is None ==> find_storage(items@, name@) is None,
{
    let mut i: usize = 0;
    assert(items@.subrange(0, items@.len() as int) =~= items@);
    while i < items.len()
        invariant
            i <= items@.len(),
            find_storage(items@, name@) == find_storage(
                items@.subrange(i as int, items@.len() as int),
                name@,
            ),
        decreases items@.len() - i,
    {
        let s = &items[i];
        let ghost rest = items@.subrange(i as int, items@.len() as int);
        assert(rest[0] == *s);
        if s.name == *name {
            let d = s.default.clone();
            assert(d@ =~= s.default@);
            return Some(d);
        }
        assert(rest.drop_first() =~= items@.subrange(i + 1, items@.len() as int));
        i = i + 1;
    }
    assert(items@.subrange(i as int, items@.len() as int) =~= Seq::<StorageMetadata>::empty());
    None
}

} // verus!
