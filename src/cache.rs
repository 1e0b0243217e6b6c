//! The element cache: elements by key, each valid for a time-to-live after it
//! was stored. Times are milliseconds on a monotonic clock that the caller reads.
use crate::element::{same_element, Element};
use crate::text::str_eq;
use vstd::prelude::*;

verus! {

struct CachedElement {
    element: Element,
    cached_at: u64,
}

/// Elements by key, with time-to-live expiry checked on each read.
pub struct ElementCache {
    entries: Vec<(String, CachedElement)>,
    ttl_ms: u128,
}

/// Counts taken at one instant: `total_entries == expired_entries + active_entries`.
#[derive(Debug, Clone, Copy, PartialEq, Eq, Structural)]
pub struct CacheStats {
    pub total_entries: usize,
    pub expired_entries: usize,
    pub active_entries: usize,
}

/// Time elapsed from `at` to `now`; none when the clock reads earlier.
pub open spec fn elapsed(at: u64, now: u64) -> int {
    if now >= at {
        now - at
    } else {
        0
    }
}

/// An entry stored at `at` is still valid at `now`.
pub open spec fn is_live(at: u64, now: u64, ttl_ms: int) -> bool {
    elapsed(at, now) < ttl_ms
}

spec fn count_expired(s: Seq<(String, CachedElement)>, now: u64, ttl_ms: int) -> nat
    decreases s.len(),
{
    if s.len() == 0 {
        0
    } else {
        count_expired(s.drop_last(), now, ttl_ms) + (if is_live(s.last().1.cached_at, now, ttl_ms) {
            0nat
        } else {
            1nat
        })
    }
}

proof fn lemma_count_expired_bound(s: Seq<(String, CachedElement)>, now: u64, ttl_ms: int)
    ensures
        count_expired(s, now, ttl_ms) <= s.len(),
    decreases s.len(),
{
    if s.len() > 0 {
        lemma_count_expired_bound(s.drop_last(), now, ttl_ms);
    }
}

impl ElementCache {
    /// Keys are unique.
    pub closed spec fn wf(&self) -> bool {
        forall|i: int, j: int|
            0 <= i < j < self.entries@.len() ==> (#[trigger] self.entries@[i]).0@ != (#[trigger] self.entries@[j]).0@
    }

    /// The time-to-live, in milliseconds.
    pub closed spec fn ttl(&self) -> int {
        self.ttl_ms as int
    }

    /// The number of entries held, expired or not.
    pub closed spec fn len(&self) -> nat {
        self.entries@.len()
    }

    /// The number of entries held that are expired at `now`.
    pub closed spec fn expired_at(&self, now: u64) -> nat {
        count_expired(self.entries@, now, self.ttl_ms as int)
    }

    /// The key is held.
    pub closed spec fn has(&self, k: Seq<char>) -> bool {
        exists|i: int| 0 <= i < self.entries@.len() && (#[trigger] self.entries@[i]).0@ == k
    }

    closed spec fn index_of(&self, k: Seq<char>) -> int {
        choose|i: int| 0 <= i < self.entries@.len() && (#[trigger] self.entries@[i]).0@ == k
    }

    /// The element held under the key (meaningful when `has(k)`).
    pub closed spec fn element(&self, k: Seq<char>) -> Element {
        self.entries@[self.index_of(k)].1.element
    }

    /// When the element under the key was stored (meaningful when `has(k)`).
    pub closed spec fn stamp(&self, k: Seq<char>) -> u64 {
        self.entries@[self.index_of(k)].1.cached_at
    }

    /// The key holds an element that is valid at `now`.
    pub open spec fn live(&self, k: Seq<char>, now: u64) -> bool {
        self.has(k) && is_live(self.stamp(k), now, self.ttl())
    }

    /// Two caches hold the same entries under `k`.
    pub open spec fn same_entry(&self, other: &Self, k: Seq<char>) -> bool {
        self.has(k) == other.has(k) && (self.has(k) ==> self.element(k) == other.element(k) && self.stamp(k)
            == other.stamp(k))
    }

    proof fn lemma_index(&self, i: int)
        requires
            self.wf(),
            0 <= i < self.entries@.len(),
        ensures
            self.has(self.entries@[i].0@),
            self.index_of(self.entries@[i].0@) == i,
    {
        let k = self.entries@[i].0@;
        assert(self.has(k));
        let j = self.index_of(k);
        if j != i {
            if j < i {
                assert(self.entries@[j].0@ != self.entries@[i].0@);
            } else {
                assert(self.entries@[i].0@ != self.entries@[j].0@);
            }
        }
    }

    /// An empty cache whose entries live `ttl_seconds` seconds.
    pub fn new(ttl_seconds: u64) -> (r: Self)
        ensures
            r.wf(),
            r.ttl() == ttl_seconds * 1000,
            r.len() == 0,
            forall|k: Seq<char>| !r.has(k),
    {
        ElementCache { entries: Vec::new(), ttl_ms: ttl_seconds as u128 * 1000 }
    }

    fn find(&self, key: &str) -> (r: Option<usize>)
        requires
            self.wf(),
        ensures
            match r {
                Some(i) => i < self.entries@.len() && self.has(key@) && self.index_of(key@) == i,
                None => !self.has(key@),
            },
    {
        let mut i: usize = 0;
        while i < self.entries.len()
            invariant
                self.wf(),
                i <= self.entries@.len(),
                forall|j: int| 0 <= j < i ==> (#[trigger] self.entries@[j]).0@ != key@,
            decreases self.entries@.len() - i,
        {
            if str_eq(self.entries[i].0.as_str(), key) {
                proof {
                    self.lemma_index(i as int);
                }
                return Some(i);
            }
            i = i + 1;
        }
        None
    }

    /// The element under `key`, unless it is missing or expired at `now`.
    pub fn get(&self, key: &str, now: u64) -> (r: Option<Element>)
        requires
            self.wf(),
        ensures
            self.live(key@, now) ==> (r matches Some(e) && same_element(e, self.element(key@))),
            !self.live(key@, now) ==> r is None,
    {
        match self.find(key) {
            Some(i) => {
                let cached = &self.entries[i].1;
                let age: u64 = if now >= cached.cached_at { now - cached.cached_at } else { 0 };
                if (age as u128) < self.ttl_ms {
                    Some(cached.element.copy())
                } else {
                    None
                }
            },
            None => None,
        }
    }

    /// Stores `element` under `key`, stamped `now`, in place of what was there.
    pub fn set(&mut self, key: String, element: Element, now: u64)
        requires
            old(self).wf(),
        ensures
            final(self).wf(),
            final(self).ttl() == old(self).ttl(),
            final(self).has(key@),
            final(self).element(key@) == element,
            final(self).stamp(key@) == now,
            forall|k: Seq<char>| k != key@ ==> #[trigger] final(self).same_entry(old(self), k),
    {
        let ghost k0 = key@;
        let entry = CachedElement { element, cached_at: now };
        match self.find(key.as_str()) {
            Some(i) => {
                let ghost before = *self;
                self.entries.set(i, (key, entry));
                proof {
                    assert forall|a: int, b: int|
                        0 <= a < b < self.entries@.len() implies (#[trigger] self.entries@[a]).0@
                        != (#[trigger] self.entries@[b]).0@ by {
                        assert(before.entries@[a].0@ != before.entries@[b].0@);
                    }
                    self.lemma_index(i as int);
                    assert forall|k: Seq<char>| k != k0 implies #[trigger] self.same_entry(&before, k) by {
                        if before.has(k) {
                            let j = before.index_of(k);
                            assert(j != i);
                            assert(self.entries@[j] == before.entries@[j]);
                            self.lemma_index(j);
                            before.lemma_index(j);
                        }
                        if self.has(k) {
                            let j = self.index_of(k);
                            assert(before.entries@[j] == self.entries@[j]);
                        }
                    }
                }
            },
            None => {
                let ghost before = *self;
                self.entries.push((key, entry));
                proof {
                    let n = before.entries@.len() as int;
                    assert forall|a: int, b: int|
                        0 <= a < b < self.entries@.len() implies (#[trigger] self.entries@[a]).0@
                        != (#[trigger] self.entries@[b]).0@ by {
                        if b == n {
                            assert(before.entries@[a] == self.entries@[a]);
                        } else {
                            assert(before.entries@[a].0@ != before.entries@[b].0@);
                        }
                    }
                    self.lemma_index(n);
                    assert forall|k: Seq<char>| k != k0 implies #[trigger] self.same_entry(&before, k) by {
                        if before.has(k) {
                            let j = before.index_of(k);
                            assert(self.entries@[j] == before.entries@[j]);
                            self.lemma_index(j);
                            before.lemma_index(j);
                        }
                        if self.has(k) {
                            let j = self.index_of(k);
                            assert(j != n);
                            assert(before.entries@[j] == self.entries@[j]);
                        }
                    }
                }
            },
        }
    }

    /// Removes the entry under `key`, whatever its age.
    pub fn invalidate(&mut self, key: &str)
        requires
            old(self).wf(),
        ensures
            final(self).wf(),
            final(self).ttl() == old(self).ttl(),
            !final(self).has(key@),
            forall|k: Seq<char>| k != key@ ==> #[trigger] final(self).same_entry(old(self), k),
    {
        match self.find(key) {
            Some(i) => {
                let ghost before = *self;
                self.entries.remove(i);
                proof {
                    assert forall|a: int, b: int|
                        0 <= a < b < self.entries@.len() implies (#[trigger] self.entries@[a]).0@
                        != (#[trigger] self.entries@[b]).0@ by {
                        let a2 = if a < i { a } else { a + 1 };
                        let b2 = if b < i { b } else { b + 1 };
                        assert(self.entries@[a] == before.entries@[a2]);
                        assert(self.entries@[b] == before.entries@[b2]);
                        assert(before.entries@[a2].0@ != before.entries@[b2].0@);
                    }
                    assert(!self.has(key@)) by {
                        if self.has(key@) {
                            let j = self.index_of(key@);
                            let j2 = if j < i { j } else { j + 1 };
                            assert(self.entries@[j] == before.entries@[j2]);
                            before.lemma_index(j2);
                            before.lemma_index(i as int);
                        }
                    }
                    assert forall|k: Seq<char>| k != key@ implies #[trigger] self.same_entry(&before, k) by {
                        if before.has(k) {
                            let j = before.index_of(k);
                            assert(j != i);
                            let j1 = if j < i { j } else { j - 1 };
                            assert(self.entries@[j1] == before.entries@[j]);
                            self.lemma_index(j1);
                        }
                        if self.has(k) {
                            let j = self.index_of(k);
                            let j2 = if j < i { j } else { j + 1 };
                            assert(self.entries@[j] == before.entries@[j2]);
                            before.lemma_index(j2);
                        }
                    }
                }
            },
            None => {},
        }
    }

    /// Removes the entries expired at `now` and returns how many there were.
    pub fn clear_expired(&mut self, now: u64) -> (r: usize)
        requires
            old(self).wf(),
        ensures
            final(self).wf(),
            final(self).ttl() == old(self).ttl(),
            r == old(self).expired_at(now),
            final(self).len() == old(self).len() - r,
            forall|k: Seq<char>| #[trigger] final(self).has(k) == old(self).live(k, now),
            forall|k: Seq<char>| #[trigger] final(self).has(k) ==> final(self).element(k) == old(self).element(k)
                && final(self).stamp(k) == old(self).stamp(k),
    {
        let ghost before = *self;
        let ttl = self.ttl_ms;
        let mut rest: Vec<(String, CachedElement)> = Vec::new();
        std::mem::swap(&mut rest, &mut self.entries);
        let total = rest.len();
        assert(rest@ == before.entries@.subrange(0, before.entries@.len() as int));
        let mut kept: Vec<(String, CachedElement)> = Vec::new();
        let ghost mut from: Seq<int> = Seq::empty();
        let mut removed: usize = 0;
        let mut i: usize = 0;
        while rest.len() > 0
            invariant
                before.wf(),
                ttl == before.ttl_ms,
                total == before.entries@.len(),
                i + rest@.len() == before.entries@.len(),
                rest@ == before.entries@.subrange(i as int, before.entries@.len() as int),
                removed == count_expired(before.entries@.subrange(0, i as int), now, ttl as int),
                kept@.len() + removed == i,
                from.len() == kept@.len(),
                forall|a: int| 0 <= a < kept@.len() ==> 0 <= #[trigger] from[a] < i && kept@[a] == before.entries@[from[a]]
                    && is_live(before.entries@[from[a]].1.cached_at, now, ttl as int),
                forall|a: int, b: int| 0 <= a < b < kept@.len() ==> #[trigger] from[a] < #[trigger] from[b],
                forall|j: int| 0 <= j < i && is_live(before.entries@[j].1.cached_at, now, ttl as int) ==> exists|a: int|
                    0 <= a < kept@.len() && #[trigger] from[a] == j,
            decreases rest@.len(),
        {
            let ghost s = before.entries@.subrange(0, i + 1);
            assert(s.drop_last() == before.entries@.subrange(0, i as int));
            assert(rest@[0] == before.entries@[i as int]);
            let item = rest.remove(0);
            assert(item == before.entries@[i as int]);
            let age: u64 = if now >= item.1.cached_at { now - item.1.cached_at } else { 0 };
            if (age as u128) < ttl {
                let ghost old_from = from;
                proof {
                    from = from.push(i as int);
                }
                kept.push(item);
                proof {
                    assert forall|j: int| 0 <= j < i + 1 && is_live(before.entries@[j].1.cached_at, now, ttl as int) implies exists|a: int|
                        0 <= a < kept@.len() && #[trigger] from[a] == j by {
                        if j == i {
                            assert(from[kept@.len() - 1] == j);
                        } else {
                            let a = choose|a: int| 0 <= a < old_from.len() && #[trigger] old_from[a] == j;
                            assert(from[a] == j);
                        }
                    }
                }
            } else {
                assert(removed <= i && i < before.entries@.len());
                removed = removed + 1;
            }
            i = i + 1;
        }
        assert(before.entries@.subrange(0, i as int) == before.entries@);
        self.entries = kept;
        proof {
            assert forall|a: int, b: int|
                0 <= a < b < self.entries@.len() implies (#[trigger] self.entries@[a]).0@
                != (#[trigger] self.entries@[b]).0@ by {
                assert(from[a] < from[b]);
                assert(before.entries@[from[a]].0@ != before.entries@[from[b]].0@);
            }
            assert forall|k: Seq<char>| #[trigger] self.has(k) == before.live(k, now) by {
                if self.has(k) {
                    let a = self.index_of(k);
                    before.lemma_index(from[a]);
                }
                if before.live(k, now) {
                    let j = before.index_of(k);
                    let a = choose|a: int| 0 <= a < kept@.len() && #[trigger] from[a] == j;
                    assert(self.entries@[a].0@ == k);
                }
            }
            assert forall|k: Seq<char>| #[trigger] self.has(k) implies self.element(k) == before.element(k)
                && self.stamp(k) == before.stamp(k) by {
                let a = self.index_of(k);
                before.lemma_index(from[a]);
            }
        }
        removed
    }

    /// Removes every entry, whatever its age.
    pub fn clear_all(&mut self)
        ensures
            final(self).wf(),
            final(self).ttl() == old(self).ttl(),
            final(self).len() == 0,
            forall|k: Seq<char>| !final(self).has(k),
    {
        self.entries.clear();
    }

    /// Counts the entries, expired and valid, at `now`.
    pub fn stats(&self, now: u64) -> (r: CacheStats)
        ensures
            r.total_entries == self.len(),
            r.expired_entries == self.expired_at(now),
            r.active_entries == self.len() - self.expired_at(now),
            r.total_entries == r.expired_entries + r.active_entries,
    {
        let mut expired: usize = 0;
        let mut i: usize = 0;
        while i < self.entries.len()
            invariant
                i <= self.entries@.len(),
                expired == count_expired(self.entries@.subrange(0, i as int), now, self.ttl_ms as int),
                expired <= i,
            decreases self.entries@.len() - i,
        {
            let ghost s = self.entries@.subrange(0, i + 1);
            assert(s.drop_last() == self.entries@.subrange(0, i as int));
            let cached_at = self.entries[i].1.cached_at;
            let age: u64 = if now >= cached_at { now - cached_at } else { 0 };
            if (age as u128) >= self.ttl_ms {
                expired = expired + 1;
            }
            i = i + 1;
        }
        assert(self.entries@.subrange(0, self.entries@.len() as int) == self.entries@);
        let total = self.entries.len();
        CacheStats { total_entries: total, expired_entries: expired, active_entries: total - expired }
    }
}

} // verus!

verus! {

/// An element just stored is returned by a read at the same instant, when the
/// time-to-live is not zero.
pub proof fn lemma_fresh_entry_is_live(c: &ElementCache, k: Seq<char>, now: u64)
    requires
        c.has(k),
        c.stamp(k) == now,
        c.ttl() > 0,
    ensures
        c.live(k, now),
{
}

/// Once the time-to-live has elapsed since an element was stored, reads no
/// longer return it.
pub proof fn lemma_entry_expires(c: &ElementCache, k: Seq<char>, later: u64)
    requires
        c.has(k),
        later >= c.stamp(k) + c.ttl(),
    ensures
        !c.live(k, later),
{
}

/// A key that is not held (as after `invalidate`) is never returned.
pub proof fn lemma_missing_not_live(c: &ElementCache, k: Seq<char>, now: u64)
    requires
        !c.has(k),
    ensures
        !c.live(k, now),
{
}

/// At every instant the entries split into expired and valid ones.
pub proof fn lemma_stats_partition(c: &ElementCache, now: u64)
    ensures
        c.expired_at(now) <= c.len(),
        c.len() == c.expired_at(now) + (c.len() - c.expired_at(now)),
{
    reveal(ElementCache::expired_at);
    reveal(ElementCache::len);
    lemma_count_expired_bound(c.entries@, now, c.ttl_ms as int);
}

} // verus!
