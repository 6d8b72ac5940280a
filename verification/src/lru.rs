//! The bounded least-recently-used store behind the execution cache.
//!
//! The store itself comes from the `lru_cache` crate; this module is the
//! trusted boundary around it. The store's hidden state is abstracted by
//! three uninterpreted functions — its contents, its recency order and
//! its capacity — and each operation the cache uses carries a contract
//! phrased as a transition on that abstraction. Everything built on top
//! of the store is verified against these transitions.
//!
//! The contracts rest on two facts about the crate's source: the store
//! keys entries by the key type's `Eq` and `Hash`, which for `CacheKey`
//! are derived and coincide with field-by-field (and hence view)
//! equality; and the underlying linked hash map keeps its entries in
//! recency order, least recently used first, refreshing an entry's
//! position on every hit and every insertion.

use vstd::prelude::*;
use lru_cache::LruCache;
use crate::cache::CacheKey;
use crate::cache::KeyModel;
use crate::status::ExitStatus;

verus! {

/// The declaration that lets the outside store type stand in
/// signatures and fields; the type stays opaque to the verifier.
#[verifier::external_type_specification]
#[verifier::external_body]
#[verifier::reject_recursive_types(K)]
#[verifier::reject_recursive_types(V)]
#[verifier::reject_recursive_types(S)]
pub struct ExLruCache<K: Eq + std::hash::Hash, V, S: std::hash::BuildHasher>(LruCache<K, V, S>);

/// The concrete store type: request fingerprints mapped to the exit
/// status and captured output observed for them.
pub type Store = LruCache<CacheKey, (ExitStatus, Vec<u8>)>;

/// What a stored result looks like in specifications.
pub type EntryModel = (ExitStatus, Seq<u8>);

/// The entries the store currently holds, keyed by fingerprint view.
pub uninterp spec fn lru_contents(c: Store) -> Map<KeyModel, EntryModel>;

/// The keys the store currently holds, least recently used first.
pub uninterp spec fn lru_order(c: Store) -> Seq<KeyModel>;

/// The capacity the store was created with.
pub uninterp spec fn lru_capacity(c: Store) -> nat;

/// The abstract state of the store: contents, recency order, capacity.
#[verifier::ext_equal]
pub ghost struct LruModel {
    pub contents: Map<KeyModel, EntryModel>,
    pub order: Seq<KeyModel>,
    pub capacity: nat,
}

/// A contents map holding nothing.
pub open spec fn empty_contents() -> Map<KeyModel, EntryModel> {
    Map::empty()
}

/// The abstract state of a concrete store.
pub open spec fn lru_model(c: Store) -> LruModel {
    LruModel { contents: lru_contents(c), order: lru_order(c), capacity: lru_capacity(c) }
}

/// A key, moved to the most-recently-used end of the order.
pub open spec fn promote(order: Seq<KeyModel>, k: KeyModel) -> Seq<KeyModel>
    recommends
        order.contains(k),
{
    order.remove(order.index_of(k)).push(k)
}

/// How a lookup changes the store: a present key moves to the
/// most-recently-used position; an absent key changes nothing.
pub open spec fn lru_touch_model(m: LruModel, k: KeyModel) -> LruModel {
    if m.contents.contains_key(k) {
        LruModel { contents: m.contents, order: promote(m.order, k), capacity: m.capacity }
    } else {
        m
    }
}

/// How an insertion changes the store: the entry is written and becomes
/// most recently used; if that leaves the store over capacity, the least
/// recently used entry is discarded.
pub open spec fn lru_insert_model(m: LruModel, k: KeyModel, v: EntryModel) -> LruModel {
    let order1 = if m.order.contains(k) {
        promote(m.order, k)
    } else {
        m.order.push(k)
    };
    let contents1 = m.contents.insert(k, v);
    if order1.len() > m.capacity {
        LruModel {
            contents: contents1.remove(order1[0]),
            order: order1.drop_first(),
            capacity: m.capacity,
        }
    } else {
        LruModel { contents: contents1, order: order1, capacity: m.capacity }
    }
}

/// Well-formedness of the abstraction: the order lists each held key
/// exactly once, and the store never exceeds its capacity.
pub open spec fn lru_wf(m: LruModel) -> bool {
    &&& m.order.no_duplicates()
    &&& m.contents.dom() == m.order.to_set()
    &&& m.order.len() <= m.capacity
}

/// Relies on `lru_cache::LruCache::new`: a fresh store is empty and
/// remembers the given capacity.
#[verifier::external_body]
pub(crate) fn lru_new(capacity: usize) -> (c: Store)
    ensures
        lru_contents(c) == empty_contents(),
        lru_order(c) == Seq::<KeyModel>::empty(),
        lru_capacity(c) == capacity as nat,
{
    LruCache::new(capacity)
}

/// Relies on `lru_cache::LruCache::get_mut` (via `get_refresh` of the
/// underlying linked hash map): a hit returns the stored entry and
/// refreshes the key's recency; a miss changes nothing.
#[verifier::external_body]
pub(crate) fn lru_get(c: &mut Store, k: &CacheKey) -> (r: Option<(ExitStatus, Vec<u8>)>)
    ensures
        lru_model(*final(c)) == lru_touch_model(lru_model(*old(c)), k@),
        lru_contents(*old(c)).contains_key(k@) ==> (r matches Some(v) && v.0 == lru_contents(
            *old(c),
        )[k@].0 && v.1@ == lru_contents(*old(c))[k@].1),
        !lru_contents(*old(c)).contains_key(k@) ==> r is None,
{
    match c.get_mut(k) {
        Some(v) => Some((v.0, v.1.clone())),
        None => None,
    }
}

/// Relies on `lru_cache::LruCache::insert`: the entry is written at the
/// most-recently-used position, and the least recently used entry is
/// evicted if the store would exceed its capacity.
#[verifier::external_body]
pub(crate) fn lru_insert(c: &mut Store, k: CacheKey, v: (ExitStatus, Vec<u8>))
    ensures
        lru_model(*final(c)) == lru_insert_model(lru_model(*old(c)), k@, (v.0, v.1@)),
{
    c.insert(k, v);
}

/// Moving a present key to the most-recently-used end keeps the order
/// duplicate-free and does not change which keys are held.
pub proof fn lemma_promote_wf(order: Seq<KeyModel>, k: KeyModel)
    requires
        order.no_duplicates(),
        order.contains(k),
    ensures
        promote(order, k).no_duplicates(),
        promote(order, k).to_set() == order.to_set(),
        promote(order, k).len() == order.len(),
        promote(order, k).last() == k,
{
    let i = order.index_of(k);
    assert(0 <= i < order.len() && order[i] == k);
    let removed = order.remove(i);
    order.remove_ensures(i);
    let p = promote(order, k);
    assert forall|a: int, b: int|
        0 <= a < p.len() && 0 <= b < p.len() && a != b implies p[a] != p[b] by {
        if a < p.len() - 1 && b < p.len() - 1 {
            assert(removed[a] != removed[b]);
        }
    }
    assert forall|x: KeyModel| p.contains(x) implies order.contains(x) by {
        let j = choose|j: int| 0 <= j < p.len() && p[j] == x;
        if j < p.len() - 1 {
            assert(removed[j] == x);
        }
    }
    assert forall|x: KeyModel| order.contains(x) implies p.contains(x) by {
        let j = choose|j: int| 0 <= j < order.len() && order[j] == x;
        if j < i {
            assert(removed[j] == x);
            assert(p[j] == x);
        } else if j == i {
            assert(p.last() == x);
        } else {
            assert(removed[j - 1] == x);
            assert(p[j - 1] == x);
        }
    }
    assert(p.to_set() =~= order.to_set());
}

/// A lookup keeps the store well formed and leaves its contents and
/// capacity unchanged.
pub proof fn lemma_touch_wf(m: LruModel, k: KeyModel)
    requires
        lru_wf(m),
    ensures
        lru_wf(lru_touch_model(m, k)),
        lru_touch_model(m, k).contents == m.contents,
        lru_touch_model(m, k).capacity == m.capacity,
{
    if m.contents.contains_key(k) {
        assert(m.order.to_set().contains(k));
        lemma_promote_wf(m.order, k);
    }
}

/// An insertion keeps the store well formed, provided the capacity is
/// positive; the written key is then held afterwards.
pub proof fn lemma_insert_wf(m: LruModel, k: KeyModel, v: EntryModel)
    requires
        lru_wf(m),
        m.capacity > 0,
    ensures
        lru_wf(lru_insert_model(m, k, v)),
        lru_insert_model(m, k, v).capacity == m.capacity,
        lru_insert_model(m, k, v).contents.contains_key(k),
        lru_insert_model(m, k, v).contents[k] == v,
{
    let order1 = if m.order.contains(k) {
        promote(m.order, k)
    } else {
        m.order.push(k)
    };
    let contents1 = m.contents.insert(k, v);
    if m.order.contains(k) {
        assert(m.contents.dom().contains(k));
        lemma_promote_wf(m.order, k);
        assert(contents1.dom() =~= m.contents.dom());
        assert(order1.len() <= m.capacity);
        assert(lru_insert_model(m, k, v) == (LruModel {
            contents: contents1,
            order: order1,
            capacity: m.capacity,
        }));
        assert(contents1.dom() == order1.to_set());
    } else {
        // The key is new: it lands at the most-recently-used end.
        assert(!m.contents.dom().contains(k));
        assert forall|a: int, b: int|
            0 <= a < order1.len() && 0 <= b < order1.len() && a != b implies order1[a]
            != order1[b] by {
            if a < order1.len() - 1 && b < order1.len() - 1 {
                assert(m.order[a] != m.order[b]);
            } else if a == order1.len() - 1 {
                assert(m.order.contains(order1[b]) && !m.order.contains(k));
            } else if b == order1.len() - 1 {
                assert(m.order.contains(order1[a]) && !m.order.contains(k));
            }
        }
        assert forall|x: KeyModel| order1.contains(x) implies contents1.dom().contains(x) by {
            let j = choose|j: int| 0 <= j < order1.len() && order1[j] == x;
            if j < order1.len() - 1 {
                assert(m.order[j] == x);
            }
        }
        assert forall|x: KeyModel| contents1.dom().contains(x) implies order1.contains(x) by {
            if x == k {
                assert(order1.last() == k);
            } else {
                let j = choose|j: int| 0 <= j < m.order.len() && m.order[j] == x;
                assert(order1[j] == x);
            }
        }
        assert(contents1.dom() =~= order1.to_set());
        if order1.len() > m.capacity {
            // Over capacity: the least recently used entry leaves.
            let evicted = order1[0];
            let order2 = order1.drop_first();
            let contents2 = contents1.remove(evicted);
            assert(order1.len() >= 2);
            assert(order1.last() == k && evicted != k);
            assert forall|a: int, b: int|
                0 <= a < order2.len() && 0 <= b < order2.len() && a != b implies order2[a]
                != order2[b] by {
                assert(order1[a + 1] != order1[b + 1]);
            }
            assert forall|x: KeyModel| order2.contains(x) implies contents2.dom().contains(x) by {
                let j = choose|j: int| 0 <= j < order2.len() && order2[j] == x;
                assert(order1[j + 1] == x);
                assert(x != evicted);
            }
            assert forall|x: KeyModel| contents2.dom().contains(x) implies order2.contains(x) by {
                assert(order1.contains(x) && x != evicted);
                let j = choose|j: int| 0 <= j < order1.len() && order1[j] == x;
                assert(j != 0);
                assert(order2[j - 1] == x);
            }
            assert(contents2.dom() =~= order2.to_set());
            assert(contents2.contains_key(k));
        }
    }
}

} // verus!
