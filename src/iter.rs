//! Iteration over every key/value pair of a storage map, page by page.
//!
//! The iterator is a state machine driven by its owner. `next` either yields
//! a buffered pair, asks for the next page of keys, or reports the end. The
//! owner performs the page request, hands the keys to `page_received`, reads
//! their values in one batch and hands the result to `values_received`.
//! Within a page, pairs are yielded from the back of the buffer: pages come in
//! forward key order, the pairs of one page in reverse.

use vstd::prelude::*;

use crate::client::{read_view, StorageError};
use crate::decode::DecodeValue;
use crate::key::{prefix_spec, StorageEntry, StorageKey, StorageKeyPrefix};

verus! {

/// The phase of a key iterator.
#[derive(Clone, Copy, Debug, PartialEq, Eq, Structural)]
pub enum IterPhase {
    /// The buffer is empty: the next page must be requested.
    Filling,
    /// Buffered pairs remain to be yielded.
    Draining,
    /// A page request returned no keys: nothing more will be yielded.
    Exhausted,
}

/// A request for up to `count` keys under `prefix` that follow `start_key`.
pub struct KeysRequest {
    pub prefix: StorageKey,
    pub count: u32,
    pub start_key: Option<StorageKey>,
}

/// What a call of `next` produced.
pub enum IterStep<V> {
    /// A key and its decoded value.
    Item(StorageKey, V),
    /// The buffer is empty: perform this request and report its keys.
    FetchKeys(KeysRequest),
    /// The map has been walked to the end.
    Done,
}

/// The abstract state of a key iterator.
pub ghost struct KeyIterState {
    pub prefix: Seq<u8>,
    pub count: u32,
    pub cursor: Option<Seq<u8>>,
    pub buffer: Seq<(Seq<u8>, Seq<u8>)>,
    pub exhausted: bool,
}

/// Iterates over the key/value pairs of a storage map.
pub struct KeyIter {
    prefix: StorageKey,
    count: u32,
    start_key: Option<StorageKey>,
    buffer: Vec<(StorageKey, Vec<u8>)>,
    exhausted: bool,
}

/// The bytes of an optional key.
pub open spec fn key_view(k: Option<StorageKey>) -> Option<Seq<u8>> {
    match k {
        Some(k) => Some(k@),
        None => None,
    }
}

/// The bytes of buffered pairs.
pub open spec fn pairs_view(pairs: Seq<(StorageKey, Vec<u8>)>) -> Seq<(Seq<u8>, Seq<u8>)> {
    pairs.map_values(|p: (StorageKey, Vec<u8>)| (p.0@, p.1@))
}

/// The bytes of the result of a batched read.
pub open spec fn changes_view(changes: Seq<(StorageKey, Option<Vec<u8>>)>) -> Seq<
    (Seq<u8>, Option<Seq<u8>>),
> {
    changes.map_values(|c: (StorageKey, Option<Vec<u8>>)| (c.0@, read_view(c.1)))
}

/// The pairs of a batched read whose value is still stored, in order; a key
/// whose value was deleted since it was listed is left out.
pub open spec fn present_pairs(changes: Seq<(Seq<u8>, Option<Seq<u8>>)>) -> Seq<(Seq<u8>, Seq<u8>)>
    decreases changes.len(),
{
    if changes.len() == 0 {
        Seq::empty()
    } else {
        let rest = present_pairs(changes.drop_last());
        match changes.last().1 {
            Some(v) => rest.push((changes.last().0, v)),
            None => rest,
        }
    }
}

/// A batched read keeps exactly the pairs whose value is still stored: every
/// buffered pair is a key of the read with the value it returned, and when no
/// value was deleted, every key of the read is kept.
pub proof fn lemma_present_pairs(changes: Seq<(Seq<u8>, Option<Seq<u8>>)>)
    ensures
        forall|j: int|
            #![trigger present_pairs(changes)[j]]
            0 <= j < present_pairs(changes).len() ==> exists|i: int|
                0 <= i < changes.len() && #[trigger] changes[i] == (
                    present_pairs(changes)[j].0,
                    Some(present_pairs(changes)[j].1),
                ),
        (forall|i: int| 0 <= i < changes.len() ==> (#[trigger] changes[i]).1 is Some) ==> present_pairs(
            changes,
        ).len() == changes.len(),
    decreases changes.len(),
{
    if changes.len() > 0 {
        let init = changes.drop_last();
        lemma_present_pairs(init);
        let p = present_pairs(changes);
        let q = present_pairs(init);
        assert forall|j: int| #![trigger p[j]] 0 <= j < p.len() implies exists|i: int|
            0 <= i < changes.len() && #[trigger] changes[i] == (p[j].0, Some(p[j].1)) by {
            if j < q.len() {
                assert(p[j] == q[j]);
                let i = choose|i: int| 0 <= i < init.len() && #[trigger] init[i] == (q[j].0, Some(q[j].1));
                assert(changes[i] == init[i]);
            } else {
                assert(changes[changes.len() - 1] == (p[j].0, Some(p[j].1)));
            }
        }
        if forall|i: int| 0 <= i < changes.len() ==> (#[trigger] changes[i]).1 is Some {
            assert forall|i: int| 0 <= i < init.len() implies (#[trigger] init[i]).1 is Some by {
                assert(init[i] == changes[i]);
            }
            assert(changes[changes.len() - 1].1 is Some);
        }
    }
}

/// The page that a node holding the keys `ks`, in ascending order, lists from
/// position `p`: at most `k` keys.
pub open spec fn page_at(ks: Seq<Seq<u8>>, p: int, k: nat) -> Seq<Seq<u8>> {
    if p >= ks.len() {
        Seq::empty()
    } else if p + k >= ks.len() {
        ks.subrange(p, ks.len() as int)
    } else {
        ks.subrange(p, p + k)
    }
}

/// The position that follows `cursor` among the keys `ks`: the start when
/// there is no cursor, else just after the key that the cursor names.
pub open spec fn after_cursor(ks: Seq<Seq<u8>>, cursor: Option<Seq<u8>>) -> int {
    match cursor {
        None => 0,
        Some(c) => (choose|i: int| 0 <= i < ks.len() && ks[i] == c) + 1,
    }
}

/// Walking the keys `ks` from position `p` in pages of `k`, each page's last
/// key the cursor of the next request: the number of page requests, the last
/// one empty, and the keys listed, in order.
pub open spec fn walk(ks: Seq<Seq<u8>>, p: nat, k: nat) -> (nat, Seq<Seq<u8>>)
    decreases ks.len() - p,
{
    if p >= ks.len() || k == 0 {
        (1, Seq::empty())
    } else {
        let page = page_at(ks, p as int, k);
        let rest = walk(ks, p + page.len(), k);
        (rest.0 + 1, page + rest.1)
    }
}

/// A page's last key, used as the cursor, resumes the listing right after the
/// page, provided the keys are distinct.
pub proof fn lemma_cursor_resumes(ks: Seq<Seq<u8>>, p: int, k: nat)
    requires
        0 <= p < ks.len(),
        0 < k,
        forall|i: int, j: int| 0 <= i < j < ks.len() ==> ks[i] != ks[j],
    ensures
        after_cursor(ks, Some(page_at(ks, p, k).last())) == p + page_at(ks, p, k).len(),
        after_cursor(ks, None) == 0,
{
    let page = page_at(ks, p, k);
    let last = p + page.len() - 1;
    assert(ks[last] == page.last());
    let i = choose|i: int| 0 <= i < ks.len() && ks[i] == page.last();
    assert(i == last) by {
        if i < last {
            assert(ks[i] != ks[last]);
        } else if i > last {
            assert(ks[last] != ks[i]);
        }
    }
}

/// Pagination exhaustion: walking `n` keys in pages of `k` lists every key
/// exactly once, in order, over `ceil(n / k) + 1` page requests, the last of
/// which comes back empty.
pub proof fn lemma_pagination_exhaustion(ks: Seq<Seq<u8>>, k: nat)
    requires
        0 < k,
    ensures
        walk(ks, 0, k).0 as int == (ks.len() + k - 1) as int / (k as int) + 1,
        walk(ks, 0, k).1 == ks,
{
    lemma_walk_from(ks, 0, k);
    assert(ks.subrange(0, ks.len() as int) =~= ks);
}

proof fn lemma_walk_from(ks: Seq<Seq<u8>>, p: nat, k: nat)
    requires
        0 < k,
        p <= ks.len(),
    ensures
        walk(ks, p, k).0 as int == (ks.len() - p + k - 1) / (k as int) + 1,
        walk(ks, p, k).1 == ks.subrange(p as int, ks.len() as int),
    decreases ks.len() - p,
{
    let n = ks.len() as int;
    let kk = k as int;
    if p >= n {
        assert(ks.subrange(p as int, n as int) =~= Seq::<Seq<u8>>::empty());
        assert((n - p + kk - 1) / kk == 0) by (nonlinear_arith)
            requires
                p == n,
                0 < kk,
        ;
    } else {
        let page = page_at(ks, p as int, k);
        let q = p + page.len();
        lemma_walk_from(ks, q, k);
        assert(page + ks.subrange(q as int, n as int) =~= ks.subrange(p as int, n as int));
        if p + k >= n {
            assert(q == n);
            assert((n - p + kk - 1) / kk == 1) by (nonlinear_arith)
                requires
                    p < n,
                    p + kk >= n,
                    0 < kk,
            ;
            assert((n - q + kk - 1) / kk == 0) by (nonlinear_arith)
                requires
                    q == n,
                    0 < kk,
            ;
        } else {
            assert(q == p + k);
            let a = n - q + kk - 1;
            assert((a + kk) / kk == a / kk + 1) by (nonlinear_arith)
                requires
                    0 < kk,
                    a >= 0,
            ;
        }
    }
}

/// The phase that the state `s` is in.
pub open spec fn phase_spec(s: KeyIterState) -> IterPhase {
    if s.exhausted {
        IterPhase::Exhausted
    } else if s.buffer.len() > 0 {
        IterPhase::Draining
    } else {
        IterPhase::Filling
    }
}

impl View for KeyIter {
    type V = KeyIterState;

    closed spec fn view(&self) -> KeyIterState {
        KeyIterState {
            prefix: self.prefix@,
            count: self.count,
            cursor: key_view(self.start_key),
            buffer: pairs_view(self.buffer@),
            exhausted: self.exhausted,
        }
    }
}

impl KeyIter {
    /// An iterator over the map `entry`, requesting `count` keys per page.
    pub fn new(entry: &StorageEntry, count: u32) -> (r: KeyIter)
        ensures
            r@.prefix == prefix_spec(entry.pallet@, entry.storage@),
            r@.count == count,
            r@.cursor is None,
            r@.buffer.len() == 0,
            !r@.exhausted,
    {
        let prefix = StorageKeyPrefix::new(entry).to_storage_key();
        let r = KeyIter { prefix, count, start_key: None, buffer: Vec::new(), exhausted: false };
        assert(r@.buffer =~= Seq::<(Seq<u8>, Seq<u8>)>::empty());
        r
    }

    /// The phase this iterator is in.
    pub fn phase(&self) -> (r: IterPhase)
        ensures
            r == phase_spec(self@),
    {
        if self.exhausted {
            IterPhase::Exhausted
        } else if self.buffer.len() > 0 {
            IterPhase::Draining
        } else {
            IterPhase::Filling
        }
    }

    /// Advances the iterator.
    ///
    /// Exhausted: reports `Done` and changes nothing, however often it is
    /// called. Draining: removes the last buffered pair and yields its key with
    /// the decoded value, or a decode error. Filling: asks for the page of keys
    /// that follows the cursor, and changes nothing.
    pub fn next<V: DecodeValue>(&mut self) -> (r: Result<IterStep<V>, StorageError>)
        ensures
            phase_spec(old(self)@) is Exhausted ==> {
                &&& final(self)@ == old(self)@
                &&& r matches Ok(IterStep::Done)
            },
            phase_spec(old(self)@) is Filling ==> {
                &&& final(self)@ == old(self)@
                &&& r matches Ok(IterStep::FetchKeys(req))
                &&& r->Ok_0->FetchKeys_0.prefix@ == old(self)@.prefix
                &&& r->Ok_0->FetchKeys_0.count == old(self)@.count
                &&& key_view(r->Ok_0->FetchKeys_0.start_key) == old(self)@.cursor
            },
            phase_spec(old(self)@) is Draining ==> {
                let last = old(self)@.buffer.last();
                &&& final(self)@ == (KeyIterState {
                    buffer: old(self)@.buffer.drop_last(),
                    ..old(self)@
                })
                &&& match V::decode_spec(last.1) {
                    Some(v) => {
                        &&& r matches Ok(IterStep::Item(_, _))
                        &&& r->Ok_0->Item_0@ == last.0
                        &&& r->Ok_0->Item_1 == v
                    },
                    None => r == Err::<IterStep<V>, StorageError>(StorageError::Decode),
                }
            },
    {
        if self.exhausted {
            return Ok(IterStep::Done);
        }
        let ghost before = self.buffer@;
        match self.buffer.pop() {
            Some((k, v)) => {
                assert(pairs_view(self.buffer@) =~= pairs_view(before).drop_last());
                match V::decode_value(v.as_slice()) {
                    Some(value) => Ok(IterStep::Item(k, value)),
                    None => Err(StorageError::Decode),
                }
            },
            None => {
                let start_key = match &self.start_key {
                    Some(k) => Some(k.duplicate()),
                    None => None,
                };
                Ok(
                    IterStep::FetchKeys(
                        KeysRequest { prefix: self.prefix.duplicate(), count: self.count, start_key },
                    ),
                )
            },
        }
    }

    /// Takes in the keys of the page that was asked for. No keys ends the
    /// iteration; otherwise the last key becomes the cursor for the next page.
    pub fn page_received(&mut self, keys: &Vec<StorageKey>)
        ensures
            keys@.len() == 0 ==> final(self)@ == (KeyIterState { exhausted: true, ..old(self)@ }),
            keys@.len() > 0 ==> final(self)@ == (KeyIterState {
                cursor: Some(keys@.last()@),
                ..old(self)@
            }),
    {
        if keys.len() == 0 {
            self.exhausted = true;
        } else {
            self.start_key = Some(keys[keys.len() - 1].duplicate());
        }
    }

    /// Takes in the values read for the keys of a page. Each pair whose value
    /// is still stored is buffered, in order; a key whose value was deleted
    /// since it was listed is dropped, and iteration goes on.
    pub fn values_received(&mut self, changes: &Vec<(StorageKey, Option<Vec<u8>>)>)
        ensures
            final(self)@ == (KeyIterState {
                buffer: old(self)@.buffer + present_pairs(changes_view(changes@)),
                ..old(self)@
            }),
    {
        let ghost start = self@.buffer;
        let mut i: usize = 0;
        while i < changes.len()
            invariant
                i <= changes@.len(),
                self@ == (KeyIterState {
                    buffer: start + present_pairs(
                        changes_view(changes@.subrange(0, i as int)),
                    ),
                    ..old(self)@
                }),
            decreases changes@.len() - i,
        {
            let ghost before = self.buffer@;
            let (k, v) = &changes[i];
            let ghost sub = changes@.subrange(0, i + 1);
            assert(changes_view(sub).drop_last() =~= changes_view(changes@.subrange(0, i as int)));
            assert(changes_view(sub).last() == (k@, read_view(*v)));
            if let Some(bytes) = v {
                let copy = bytes.clone();
                assert(copy@ =~= bytes@);
                self.buffer.push((k.duplicate(), copy));
                assert(pairs_view(self.buffer@) =~= pairs_view(before).push((k@, bytes@)));
            }
            i = i + 1;
            assert(self@.buffer =~= start + present_pairs(
                changes_view(changes@.subrange(0, i as int)),
            ));
        }
        assert(changes@.subrange(0, changes@.len() as int) =~= changes@);
    }
}

} // verus!
