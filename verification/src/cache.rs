//! The execution cache: request fingerprints mapped to observed results.
//!
//! A fingerprint is the exact tuple of request parameters; two
//! fingerprints are equal only when every field is equal, including the
//! order of arguments and environment entries. The cache is a bounded
//! least-recently-used store from fingerprints to (exit status, output)
//! pairs; a hit returns a copy of the stored result.

use vstd::prelude::*;
use crate::channel::ReleaseChannel;
use crate::lru;
use crate::lru::EntryModel;
use crate::lru::LruModel;
use crate::status::ExitStatus;

verus! {

/// How many results the cache holds before evicting.
pub const CACHE_CAPACITY: usize = 256;

/// The fingerprint of a request: the exact tuple of parameters that
/// identifies it for caching. Never mutated after construction.
#[derive(Debug, PartialEq, Eq, Hash)]
pub struct CacheKey {
    pub channel: ReleaseChannel,
    pub cmd: String,
    pub args: Vec<String>,
    pub env: Vec<(String, String)>,
    pub input: String,
}

/// A fingerprint as specifications see it.
#[verifier::ext_equal]
pub ghost struct KeyModel {
    pub channel: ReleaseChannel,
    pub cmd: Seq<char>,
    pub args: Seq<Seq<char>>,
    pub env: Seq<(Seq<char>, Seq<char>)>,
    pub input: Seq<char>,
}

impl View for CacheKey {
    type V = KeyModel;

    open spec fn view(&self) -> KeyModel {
        KeyModel {
            channel: self.channel,
            cmd: self.cmd@,
            args: self.args.deep_view(),
            env: self.env.deep_view(),
            input: self.input@,
        }
    }
}

impl CacheKey {
    /// Builds the fingerprint of a request from the exact parameters
    /// given, in the order given.
    pub fn new(
        channel: ReleaseChannel,
        cmd: &str,
        args: Vec<String>,
        env: Vec<(String, String)>,
        input: String,
    ) -> (k: CacheKey)
        ensures
            k@ == (KeyModel {
                channel,
                cmd: cmd@,
                args: args.deep_view(),
                env: env.deep_view(),
                input: input@,
            }),
    {
        CacheKey { channel, cmd: cmd.to_owned(), args, env, input }
    }
}

/// Two fingerprints are equal exactly when every field is equal: any
/// difference in channel, command, any argument, any environment entry
/// or the input yields a distinct fingerprint.
pub proof fn lemma_fingerprint_sensitivity(a: KeyModel, b: KeyModel)
    ensures
        (a == b) <==> (a.channel == b.channel && a.cmd == b.cmd && a.args == b.args && a.env
            == b.env && a.input == b.input),
{
    if a.channel == b.channel && a.cmd == b.cmd && a.args == b.args && a.env == b.env && a.input
        == b.input {
        assert(a =~= b);
    }
}

/// Determinism of caching: after the result observed for a fingerprint
/// is stored, the fingerprint is held with exactly that result, and a
/// later lookup of the same fingerprint (a hit, which performs no
/// sandbox work) still finds exactly that result.
pub proof fn lemma_repeat_request_hits(m: LruModel, k: KeyModel, v: EntryModel)
    requires
        lru::lru_wf(m),
        m.capacity > 0,
    ensures
        ({
            let stored = lru::lru_insert_model(m, k, v);
            &&& stored.contents.contains_key(k)
            &&& stored.contents[k] == v
            &&& lru::lru_touch_model(stored, k).contents == stored.contents
        }),
{
    lru::lemma_insert_wf(m, k, v);
    lru::lemma_touch_wf(lru::lru_insert_model(m, k, v), k);
}

/// Independence of cache slots: storing a result under one fingerprint
/// never creates, changes or revives the entry of a different
/// fingerprint — at most it evicts it; and a lookup changes no entry at
/// all.
pub proof fn lemma_distinct_requests_independent(
    m: LruModel,
    k1: KeyModel,
    v: EntryModel,
    k2: KeyModel,
)
    requires
        k1 != k2,
    ensures
        ({
            let stored = lru::lru_insert_model(m, k1, v);
            &&& stored.contents.contains_key(k2) ==> (m.contents.contains_key(k2)
                && stored.contents[k2] == m.contents[k2])
            &&& lru::lru_touch_model(m, k1).contents == m.contents
        }),
{
}

/// The empty abstract cache of a given capacity.
pub open spec fn empty_model(cap: nat) -> LruModel {
    LruModel { contents: lru::empty_contents(), order: Seq::empty(), capacity: cap }
}

/// The abstract cache after a sequence of results has been stored, in
/// order, each under its own fingerprint.
pub open spec fn store_all(m: LruModel, entries: Seq<(KeyModel, EntryModel)>) -> LruModel
    decreases entries.len(),
{
    if entries.len() == 0 {
        m
    } else {
        lru::lru_insert_model(store_all(m, entries.drop_last()), entries.last().0, entries.last().1)
    }
}

/// The bound of the store: after storing any number of distinct
/// fingerprints into an empty cache of positive capacity `cap`, exactly
/// the `cap` most recently stored remain retrievable, in order of
/// storage, and every earlier fingerprint has been evicted.
pub proof fn lemma_lru_bound(cap: nat, entries: Seq<(KeyModel, EntryModel)>)
    requires
        cap > 0,
        forall|i: int, j: int|
            0 <= i < entries.len() && 0 <= j < entries.len() && i != j ==> entries[i].0
                != entries[j].0,
    ensures
        ({
            let m = store_all(empty_model(cap), entries);
            let kept = if entries.len() <= cap {
                entries.len() as int
            } else {
                cap as int
            };
            &&& lru::lru_wf(m)
            &&& m.capacity == cap
            &&& m.order == Seq::new(kept as nat, |j: int| entries[entries.len() - kept + j].0)
            &&& forall|i: int|
                entries.len() - kept <= i < entries.len() ==> m.contents.contains_key(
                    #[trigger] entries[i].0,
                ) && m.contents[entries[i].0] == entries[i].1
            &&& forall|i: int|
                0 <= i < entries.len() - kept ==> !m.contents.contains_key(#[trigger] entries[i].0)
        }),
    decreases entries.len(),
{
    let m = store_all(empty_model(cap), entries);
    let n = entries.len() as int;
    let kept = if n <= cap { n } else { cap as int };
    if entries.len() == 0 {
        assert(m.contents.dom() =~= m.order.to_set());
        assert(m.order =~= Seq::new(0, |j: int| entries[n - kept + j].0));
    } else {
        let prefix = entries.drop_last();
        let e = entries.last();
        lemma_lru_bound(cap, prefix);
        let prev = store_all(empty_model(cap), prefix);
        let np = prefix.len() as int;
        let keptp = if np <= cap { np } else { cap as int };
        // The new fingerprint is distinct from every held one, so it is
        // pushed at the most-recently-used end.
        assert forall|x: KeyModel| prev.order.contains(x) implies x != e.0 by {
            let j = choose|j: int| 0 <= j < prev.order.len() && prev.order[j] == x;
            assert(x == prefix[np - keptp + j].0);
            assert(entries[np - keptp + j].0 != entries[n - 1].0);
        }
        assert(!prev.contents.contains_key(e.0));
        assert(!prev.order.contains(e.0));
        let order1 = prev.order.push(e.0);
        let contents1 = prev.contents.insert(e.0, e.1);
        lru::lemma_insert_wf(prev, e.0, e.1);
        if order1.len() > cap {
            // The cache was full: the least recently stored entry leaves.
            assert(keptp == cap as int && kept == cap as int);
            let evicted = order1[0];
            assert(evicted == prefix[np - keptp].0);
            assert(m.order =~= order1.drop_first());
            assert(m.order =~= Seq::new(kept as nat, |j: int| entries[n - kept + j].0));
            assert(m.contents == contents1.remove(evicted));
            assert forall|i: int| n - kept <= i < n implies m.contents.contains_key(
                #[trigger] entries[i].0,
            ) && m.contents[entries[i].0] == entries[i].1 by {
                assert(entries[i].0 != evicted);
                if i < n - 1 {
                    assert(prefix[i] == entries[i]);
                    assert(entries[i].0 != e.0);
                }
            }
            assert forall|i: int| 0 <= i < n - kept implies !m.contents.contains_key(
                #[trigger] entries[i].0,
            ) by {
                if i < n - kept - 1 {
                    assert(prefix[i] == entries[i]);
                    assert(!prev.contents.contains_key(entries[i].0));
                    assert(entries[i].0 != e.0);
                }
            }
        } else {
            assert(kept == keptp + 1);
            assert(m.order == order1);
            assert(m.order =~= Seq::new(kept as nat, |j: int| entries[n - kept + j].0));
            assert forall|i: int| n - kept <= i < n implies m.contents.contains_key(
                #[trigger] entries[i].0,
            ) && m.contents[entries[i].0] == entries[i].1 by {
                if i < n - 1 {
                    assert(prefix[i] == entries[i]);
                    assert(entries[i].0 != e.0);
                }
            }
            assert forall|i: int| 0 <= i < n - kept implies !m.contents.contains_key(
                #[trigger] entries[i].0,
            ) by {
                assert(prefix[i] == entries[i]);
                assert(!prev.contents.contains_key(entries[i].0));
                assert(entries[i].0 != e.0);
            }
        }
    }
}

/// The bounded cache from request fingerprints to observed results.
pub struct Cache {
    store: lru::Store,
}

impl Cache {
    /// The abstract state of the cache.
    pub closed spec fn model(&self) -> LruModel {
        lru::lru_model(self.store)
    }

    /// The cache is well formed and bounded by its fixed capacity.
    pub open spec fn wf(&self) -> bool {
        &&& lru::lru_wf(self.model())
        &&& self.model().capacity == CACHE_CAPACITY
    }

    /// Creates an empty cache holding at most `CACHE_CAPACITY` results.
    pub fn new() -> (c: Cache)
        ensures
            c.wf(),
            c.model().contents == lru::empty_contents(),
            c.model().order == Seq::<KeyModel>::empty(),
    {
        let c = Cache { store: lru::lru_new(CACHE_CAPACITY) };
        proof {
            assert(c.model().contents.dom() =~= c.model().order.to_set());
        }
        c
    }

    /// Looks a fingerprint up. A hit returns a copy of the stored result
    /// and makes the fingerprint most recently used; a miss returns
    /// `None` and changes nothing. No sandbox work is performed either
    /// way.
    pub fn lookup(&mut self, key: &CacheKey) -> (r: Option<(ExitStatus, Vec<u8>)>)
        requires
            old(self).wf(),
        ensures
            final(self).wf(),
            final(self).model() == lru::lru_touch_model(old(self).model(), key@),
            old(self).model().contents.contains_key(key@) ==> (r matches Some(v) && v.0 == old(
                self,
            ).model().contents[key@].0 && v.1@ == old(self).model().contents[key@].1),
            !old(self).model().contents.contains_key(key@) ==> r is None,
    {
        proof {
            lru::lemma_touch_wf(self.model(), key@);
        }
        lru::lru_get(&mut self.store, key)
    }

    /// Stores the result observed for a fingerprint. The entry becomes
    /// most recently used; if the cache was full and the fingerprint is
    /// new, the least recently used entry is evicted.
    pub fn store(&mut self, key: CacheKey, status: ExitStatus, output: Vec<u8>)
        requires
            old(self).wf(),
        ensures
            final(self).wf(),
            final(self).model() == lru::lru_insert_model(
                old(self).model(),
                key@,
                (status, output@),
            ),
            final(self).model().contents.contains_key(key@),
            final(self).model().contents[key@] == (status, output@),
    {
        proof {
            lru::lemma_insert_wf(self.model(), key@, (status, output@));
        }
        lru::lru_insert(&mut self.store, key, (status, output))
    }
}

} // verus!
