//! The cache of region leaders, keyed by the key that each was looked up for.

use crate::client::comment::{RegionLeader, RegionLeaderView};
use crate::client::messages::copy_bytes;
use vstd::prelude::*;

verus! {

/// Whether two byte strings are equal.
pub fn bytes_equal(a: &Vec<u8>, b: &Vec<u8>) -> (r: bool)
    ensures
        r == (a@ == b@),
{
    if a.len() != b.len() {
        return false;
    }
    let mut i: usize = 0;
    while i < a.len()
        invariant
            a.len() == b.len(),
            i <= a.len(),
            a@.subrange(0, i as int) == b@.subrange(0, i as int),
        decreases a.len() - i,
    {
        if a[i] != b[i] {
            assert(a@[i as int] != b@[i as int]);
            return false;
        }
        assert(a@.subrange(0, i + 1) == a@.subrange(0, i as int).push(a@[i as int]));
        assert(b@.subrange(0, i + 1) == b@.subrange(0, i as int).push(b@[i as int]));
        i = i + 1;
    }
    assert(a@ == a@.subrange(0, a.len() as int));
    assert(b@ == b@.subrange(0, b.len() as int));
    true
}

/// The entries of the cache, kept with the map they stand for.
struct CacheEntries {
    entries: Vec<(Vec<u8>, RegionLeader)>,
    contents: Ghost<Map<Seq<u8>, RegionLeaderView>>,
}

impl CacheEntries {
    /// The key of the `i`th entry.
    spec fn key_at(&self, i: int) -> Seq<u8> {
        self.entries@[i].0@
    }

    /// The region leader of the `i`th entry.
    spec fn value_at(&self, i: int) -> RegionLeaderView {
        self.entries@[i].1@
    }

    /// The cache as a map.
    pub closed spec fn contents(&self) -> Map<Seq<u8>, RegionLeaderView> {
        self.contents@
    }

    /// No key occurs twice, and the entries are exactly the map.
    pub closed spec fn wf(&self) -> bool {
        &&& forall|i: int, j: int|
            0 <= i < j < self.entries@.len() ==> #[trigger] self.key_at(i) != #[trigger] self.key_at(j)
        &&& forall|i: int|
            0 <= i < self.entries@.len() ==> {
                &&& self.contents@.contains_key(#[trigger] self.key_at(i))
                &&& self.contents@[self.key_at(i)] == self.value_at(i)
            }
        &&& forall|k: Seq<u8>|
            #[trigger] self.contents@.contains_key(k) ==> exists|i: int|
                0 <= i < self.entries@.len() && #[trigger] self.key_at(i) == k
    }

    /// An empty cache.
    pub fn new() -> (c: Self)
        ensures
            c.wf(),
            c@ == Map::<Seq<u8>, RegionLeaderView>::empty(),
    {
        CacheEntries { entries: Vec::new(), contents: Ghost(Map::empty()) }
    }

    /// The position of `key`, where it is cached.
    fn find(&self, key: &Vec<u8>) -> (r: Option<usize>)
        requires
            self.wf(),
        ensures
            match r {
                Some(i) => i < self.entries@.len() && self.key_at(i as int) == key@,
                None => !self@.contains_key(key@),
            },
    {
        let mut i: usize = 0;
        while i < self.entries.len()
            invariant
                self.wf(),
                i <= self.entries@.len(),
                forall|j: int| 0 <= j < i ==> #[trigger] self.key_at(j) != key@,
            decreases self.entries@.len() - i,
        {
            if bytes_equal(&self.entries[i].0, key) {
                return Some(i);
            }
            i = i + 1;
        }
        None
    }

    /// The region leader cached for `key`, if any.
    pub fn get(&self, key: &Vec<u8>) -> (r: Option<RegionLeader>)
        requires
            self.wf(),
        ensures
            match r {
                Some(l) => self@.contains_key(key@) && l@ == self@[key@],
                None => !self@.contains_key(key@),
            },
    {
        match self.find(key) {
            Some(i) => Some(self.entries[i].1.clone()),
            None => None,
        }
    }

    /// Caches `value` for `key`, in place of what was cached for it.
    pub fn insert(&mut self, key: Vec<u8>, value: RegionLeader)
        requires
            old(self).wf(),
        ensures
            final(self).wf(),
            final(self)@ == old(self)@.insert(key@, value@),
    {
        let ghost k = key@;
        let ghost v = value@;
        let ghost new_contents = self.contents@.insert(k, v);
        match self.find(&key) {
            Some(i) => {
                self.entries.set(i, (key, value));
                self.contents = Ghost(new_contents);
                assert forall|j: int| 0 <= j < self.entries@.len() implies #[trigger] self.key_at(j) == old(self).key_at(j) by {}
                assert forall|j: int| 0 <= j < self.entries@.len() implies {
                    &&& self.contents@.contains_key(#[trigger] self.key_at(j))
                    &&& self.contents@[self.key_at(j)] == self.value_at(j)
                } by {
                    if j != i {
                        assert(old(self).key_at(j) == self.key_at(j));
                        assert(old(self).key_at(j) != old(self).key_at(i as int));
                    }
                }
                assert forall|kk: Seq<u8>| #[trigger] self.contents@.contains_key(kk) implies exists|j: int|
                    0 <= j < self.entries@.len() && #[trigger] self.key_at(j) == kk by {
                    if kk == k {
                        assert(self.key_at(i as int) == kk);
                    } else {
                        let j = choose|j: int| 0 <= j < old(self).entries@.len() && #[trigger] old(self).key_at(j) == kk;
                        assert(self.key_at(j) == kk);
                    }
                }
            },
            None => {
                self.entries.push((key, value));
                self.contents = Ghost(new_contents);
                let ghost n = old(self).entries@.len() as int;
                assert(self.key_at(n) == k);
                assert forall|a: int, b: int| 0 <= a < b < self.entries@.len() implies #[trigger] self.key_at(a) != #[trigger] self.key_at(b) by {
                    assert(old(self).key_at(a) == self.key_at(a));
                    if b < n {
                        assert(old(self).key_at(b) == self.key_at(b));
                    } else {
                        assert(old(self).contents@.contains_key(old(self).key_at(a)));
                    }
                }
                assert forall|j: int| 0 <= j < self.entries@.len() implies {
                    &&& self.contents@.contains_key(#[trigger] self.key_at(j))
                    &&& self.contents@[self.key_at(j)] == self.value_at(j)
                } by {
                    if j < n {
                        assert(old(self).key_at(j) == self.key_at(j));
                        assert(old(self).contents@.contains_key(old(self).key_at(j)));
                    }
                }
                assert forall|kk: Seq<u8>| #[trigger] self.contents@.contains_key(kk) implies exists|j: int|
                    0 <= j < self.entries@.len() && #[trigger] self.key_at(j) == kk by {
                    if kk == k {
                        assert(self.key_at(n) == kk);
                    } else {
                        let j = choose|j: int| 0 <= j < old(self).entries@.len() && #[trigger] old(self).key_at(j) == kk;
                        assert(self.key_at(j) == kk);
                    }
                }
            },
        }
    }

    /// Forgets what is cached for `key`.
    pub fn remove(&mut self, key: &Vec<u8>)
        requires
            old(self).wf(),
        ensures
            final(self).wf(),
            final(self)@ == old(self)@.remove(key@),
    {
        let ghost k = key@;
        match self.find(key) {
            Some(i) => {
                self.entries.remove(i);
                self.contents = Ghost(old(self).contents@.remove(k));
                assert forall|a: int, b: int| 0 <= a < b < self.entries@.len() implies #[trigger] self.key_at(a) != #[trigger] self.key_at(b) by {
                    let oa = if a < i { a } else { a + 1 };
                    let ob = if b < i { b } else { b + 1 };
                    assert(old(self).key_at(oa) == self.key_at(a));
                    assert(old(self).key_at(ob) == self.key_at(b));
                }
                assert forall|j: int| 0 <= j < self.entries@.len() implies {
                    &&& self.contents@.contains_key(#[trigger] self.key_at(j))
                    &&& self.contents@[self.key_at(j)] == self.value_at(j)
                } by {
                    let oj = if j < i { j } else { j + 1 };
                    assert(old(self).key_at(oj) == self.key_at(j));
                    assert(old(self).key_at(oj) != old(self).key_at(i as int));
                }
                assert forall|kk: Seq<u8>| #[trigger] self.contents@.contains_key(kk) implies exists|j: int|
                    0 <= j < self.entries@.len() && #[trigger] self.key_at(j) == kk by {
                    let oj = choose|j: int| 0 <= j < old(self).entries@.len() && #[trigger] old(self).key_at(j) == kk;
                    assert(oj != i);
                    let j = if oj < i { oj } else { oj - 1 };
                    assert(self.key_at(j) == kk);
                }
            },
            None => {
                assert(old(self).contents@.remove(k) =~= old(self).contents@);
            },
        }
    }
}

impl Clone for CacheEntries {
    fn clone(&self) -> (c: Self)
        ensures
            self.wf() ==> c.wf() && c@ == self@,
    {
        let mut entries: Vec<(Vec<u8>, RegionLeader)> = Vec::with_capacity(self.entries.len());
        let mut i: usize = 0;
        while i < self.entries.len()
            invariant
                i <= self.entries@.len(),
                entries@.len() == i,
                forall|j: int| 0 <= j < i ==> #[trigger] entries@[j].0@ == self.key_at(j)
                    && entries@[j].1@ == self.value_at(j),
            decreases self.entries@.len() - i,
        {
            let k = copy_bytes(&self.entries[i].0);
            let v = self.entries[i].1.clone();
            entries.push((k, v));
            i = i + 1;
        }
        let c = CacheEntries { entries, contents: Ghost(self.contents@) };
        assert forall|j: int| 0 <= j < c.entries@.len() implies #[trigger] c.key_at(j) == self.key_at(j)
            && c.value_at(j) == self.value_at(j) by {}
        proof {
            if self.wf() {
                assert forall|a: int, b: int| 0 <= a < b < c.entries@.len() implies #[trigger] c.key_at(a)
                    != #[trigger] c.key_at(b) by {
                    assert(c.key_at(a) == self.key_at(a));
                    assert(c.key_at(b) == self.key_at(b));
                }
                assert forall|j: int| 0 <= j < c.entries@.len() implies {
                    &&& c.contents@.contains_key(#[trigger] c.key_at(j))
                    &&& c.contents@[c.key_at(j)] == c.value_at(j)
                } by {
                    assert(c.key_at(j) == self.key_at(j));
                }
                assert forall|k: Seq<u8>| #[trigger] c.contents@.contains_key(k) implies exists|j: int|
                    0 <= j < c.entries@.len() && #[trigger] c.key_at(j) == k by {
                    let j = choose|j: int| 0 <= j < self.entries@.len() && #[trigger] self.key_at(j) == k;
                    assert(c.key_at(j) == k);
                }
            }
        }
        c
    }
}

impl View for CacheEntries {
    type V = Map<Seq<u8>, RegionLeaderView>;

    open spec fn view(&self) -> Map<Seq<u8>, RegionLeaderView> {
        self.contents()
    }
}


/// A map from keys to region leaders. Each key occurs at most once.
pub struct RegionCache {
    inner: CacheEntries,
}

impl RegionCache {
    #[verifier::type_invariant]
    spec fn inv(&self) -> bool {
        self.inner.wf()
    }

    /// The cache as a map.
    pub closed spec fn contents(&self) -> Map<Seq<u8>, RegionLeaderView> {
        self.inner@
    }

    /// An empty cache.
    pub fn new() -> (c: Self)
        ensures
            c@ == Map::<Seq<u8>, RegionLeaderView>::empty(),
    {
        RegionCache { inner: CacheEntries::new() }
    }

    /// The region leader cached for `key`, if any.
    pub fn get(&self, key: &Vec<u8>) -> (r: Option<RegionLeader>)
        ensures
            match r {
                Some(l) => self@.contains_key(key@) && l@ == self@[key@],
                None => !self@.contains_key(key@),
            },
    {
        proof {
            use_type_invariant(self);
        }
        self.inner.get(key)
    }

    /// Caches `value` for `key`, in place of what was cached for it.
    pub fn insert(&mut self, key: Vec<u8>, value: RegionLeader)
        ensures
            final(self)@ == old(self)@.insert(key@, value@),
    {
        proof {
            use_type_invariant(&*self);
        }
        let mut inner = CacheEntries::new();
        std::mem::swap(&mut inner, &mut self.inner);
        inner.insert(key, value);
        self.inner = inner;
    }

    /// Forgets what is cached for `key`.
    pub fn remove(&mut self, key: &Vec<u8>)
        ensures
            final(self)@ == old(self)@.remove(key@),
    {
        proof {
            use_type_invariant(&*self);
        }
        let mut inner = CacheEntries::new();
        std::mem::swap(&mut inner, &mut self.inner);
        inner.remove(key);
        self.inner = inner;
    }
}

impl Clone for RegionCache {
    fn clone(&self) -> (c: Self)
        ensures
            c@ == self@,
    {
        proof {
            use_type_invariant(self);
        }
        RegionCache { inner: self.inner.clone() }
    }
}

impl View for RegionCache {
    type V = Map<Seq<u8>, RegionLeaderView>;

    open spec fn view(&self) -> Map<Seq<u8>, RegionLeaderView> {
        self.contents()
    }
}

/// What the cache answers for `key`.
pub open spec fn lookup(cache: Map<Seq<u8>, RegionLeaderView>, key: Seq<u8>) -> Option<
    RegionLeaderView,
> {
    if cache.contains_key(key) {
        Some(cache[key])
    } else {
        None
    }
}

/// A change of the cache: a region leader fetched for a key, a key evicted,
/// or nothing.
pub enum CacheEvent {
    Fetched(Seq<u8>, RegionLeaderView),
    Evicted(Seq<u8>),
    Unchanged,
}

/// The cache after one change.
pub open spec fn apply_event(
    cache: Map<Seq<u8>, RegionLeaderView>,
    e: CacheEvent,
) -> Map<Seq<u8>, RegionLeaderView> {
    match e {
        CacheEvent::Fetched(k, l) => cache.insert(k, l),
        CacheEvent::Evicted(k) => cache.remove(k),
        CacheEvent::Unchanged => cache,
    }
}

/// The cache after a run of changes, the first one first.
pub open spec fn apply_events(
    cache: Map<Seq<u8>, RegionLeaderView>,
    es: Seq<CacheEvent>,
) -> Map<Seq<u8>, RegionLeaderView>
    decreases es.len(),
{
    if es.len() == 0 {
        cache
    } else {
        apply_event(apply_events(cache, es.drop_last()), es.last())
    }
}

/// Whether a change concerns `key`.
pub open spec fn touches(e: CacheEvent, key: Seq<u8>) -> bool {
    match e {
        CacheEvent::Fetched(k, _) => k == key,
        CacheEvent::Evicted(k) => k == key,
        CacheEvent::Unchanged => false,
    }
}

/// A change that does not concern `key` leaves the cache's answer for it
/// as it was.
pub proof fn law_other_change_keeps_answer(
    cache: Map<Seq<u8>, RegionLeaderView>,
    e: CacheEvent,
    key: Seq<u8>,
)
    requires
        !touches(e, key),
    ensures
        lookup(apply_event(cache, e), key) == lookup(cache, key),
{
}

/// Changes that do not concern `key` leave the cache's answer for it as it
/// was.
pub proof fn law_untouched_key_keeps_answer(
    cache: Map<Seq<u8>, RegionLeaderView>,
    es: Seq<CacheEvent>,
    key: Seq<u8>,
)
    requires
        forall|i: int| 0 <= i < es.len() ==> !touches(#[trigger] es[i], key),
    ensures
        lookup(apply_events(cache, es), key) == lookup(cache, key),
    decreases es.len(),
{
    if es.len() > 0 {
        let init = es.drop_last();
        assert forall|i: int| 0 <= i < init.len() implies !touches(#[trigger] init[i], key) by {
            assert(init[i] == es[i]);
        }
        law_untouched_key_keeps_answer(cache, init, key);
        law_other_change_keeps_answer(apply_events(cache, init), es.last(), key);
    }
}

/// After a run of changes, the cache answers for `key` what the last change
/// that concerns `key` left: the region leader fetched for it, or nothing
/// after an eviction.
pub proof fn law_last_change_decides_answer(
    cache: Map<Seq<u8>, RegionLeaderView>,
    es: Seq<CacheEvent>,
    key: Seq<u8>,
    i: int,
)
    requires
        0 <= i < es.len(),
        touches(es[i], key),
        forall|j: int| i < j < es.len() ==> !touches(#[trigger] es[j], key),
    ensures
        lookup(apply_events(cache, es), key) == match es[i] {
            CacheEvent::Fetched(_, l) => Some(l),
            _ => None::<RegionLeaderView>,
        },
    decreases es.len(),
{
    let init = es.drop_last();
    if i == es.len() - 1 {
        let before = apply_events(cache, init);
        match es[i] {
            CacheEvent::Fetched(k, l) => {
                assert(before.insert(k, l).contains_key(key));
            },
            CacheEvent::Evicted(k) => {
                assert(!before.remove(k).contains_key(key));
            },
            CacheEvent::Unchanged => {},
        }
    } else {
        assert forall|j: int| i < j < init.len() implies !touches(#[trigger] init[j], key) by {
            assert(init[j] == es[j]);
        }
        assert(init[i] == es[i]);
        law_last_change_decides_answer(cache, init, key, i);
        law_other_change_keeps_answer(apply_events(cache, init), es.last(), key);
    }
}

} // verus!
