//! A bounded least-recently-used cache from queries to result lists. The
//! entry order is the recency order: index 0 is evicted first, the last
//! entry is the most recently used.

use vstd::prelude::*;

use crate::engine::{
    duplicate_matched_list, matched_list_view, query_eq, query_key, MatchedCVE, Query,
};

verus! {

/// One cache slot: a query and the result list stored for it.
#[derive(Debug)]
pub struct CacheEntry {
    pub query: Query,
    pub cves: Vec<MatchedCVE>,
}

/// The result cache: at most `cap` entries, keyed by query, recency-ordered.
#[derive(Debug)]
pub struct ResultCache {
    pub entries: Vec<CacheEntry>,
    pub cap: usize,
}

/// Well-formedness: a positive capacity, respected by the entry count, and
/// pairwise distinct query keys.
pub open spec fn cache_inv(c: ResultCache) -> bool {
    &&& c.cap >= 1
    &&& c.entries@.len() <= c.cap
    &&& forall|i: int, j: int|
        0 <= i < j < c.entries@.len() ==> query_key(c.entries@[i].query) != query_key(
            c.entries@[j].query,
        )
}

/// Whether some entry is stored under the key.
pub open spec fn cache_contains(
    s: Seq<CacheEntry>,
    k: (Option<Seq<char>>, Seq<char>, Seq<char>),
) -> bool {
    exists|i: int| 0 <= i < s.len() && query_key(s[i].query) == k
}

/// The position of the entry stored under the key.
pub open spec fn cache_index(
    s: Seq<CacheEntry>,
    k: (Option<Seq<char>>, Seq<char>, Seq<char>),
) -> int {
    choose|i: int| 0 <= i < s.len() && query_key(s[i].query) == k
}

/// The abstract value stored under the key, if any.
pub open spec fn cache_lookup(
    s: Seq<CacheEntry>,
    k: (Option<Seq<char>>, Seq<char>, Seq<char>),
) -> Option<
    Seq<
        (
            Seq<char>,
            Seq<char>,
            Seq<char>,
            Seq<char>,
            Option<Seq<char>>,
            Seq<(Seq<char>, Seq<Seq<char>>)>,
            Seq<Seq<char>>,
            Seq<char>,
            Seq<char>,
            (Option<(Seq<char>, Seq<char>, Seq<char>, Seq<char>)>, Option<
                (Seq<char>, Seq<char>, Seq<char>, Seq<char>),
            >),
        ),
    >,
> {
    if cache_contains(s, k) {
        Some(matched_list_view(s[cache_index(s, k)].cves@))
    } else {
        None
    }
}

/// Moving the entry at `i` to the most-recently-used end.
pub open spec fn spec_bump(s: Seq<CacheEntry>, i: int) -> Seq<CacheEntry> {
    s.remove(i).push(s[i])
}

/// Inserting an entry: any entry under the same key is dropped, the new
/// entry becomes most recently used, and the least recently used entry is
/// evicted when the capacity would be exceeded.
pub open spec fn spec_put(s: Seq<CacheEntry>, cap: int, e: CacheEntry) -> Seq<CacheEntry> {
    let cleaned = if cache_contains(s, query_key(e.query)) {
        s.remove(cache_index(s, query_key(e.query)))
    } else {
        s
    };
    let pushed = cleaned.push(e);
    if pushed.len() > cap {
        pushed.subrange(1, pushed.len() as int)
    } else {
        pushed
    }
}

/// After a put, the key of the inserted entry is stored with exactly the
/// inserted value: the cache answers later queries from it.
pub proof fn lemma_cache_put_lookup(s: Seq<CacheEntry>, cap: int, e: CacheEntry)
    requires
        cap >= 1,
        forall|i: int, j: int|
            0 <= i < j < s.len() ==> query_key(s[i].query) != query_key(s[j].query),
    ensures
        cache_lookup(spec_put(s, cap, e), query_key(e.query)) == Some(
            matched_list_view(e.cves@),
        ),
{
    let k = query_key(e.query);
    let cleaned = if cache_contains(s, k) {
        s.remove(cache_index(s, k))
    } else {
        s
    };
    assert forall|i: int| 0 <= i < cleaned.len() implies query_key(cleaned[i].query) != k by {
        if cache_contains(s, k) {
            let d = cache_index(s, k);
            if i < d {
                assert(cleaned[i] == s[i]);
            } else {
                assert(cleaned[i] == s[i + 1]);
            }
        }
    }
    let res = spec_put(s, cap, e);
    let last = res.len() - 1;
    assert(res[last] == e);
    assert(cache_contains(res, k));
    let w = cache_index(res, k);
    assert(0 <= w < res.len() && query_key(res[w].query) == k);
    if w != last {
        if res.len() == cleaned.push(e).len() {
            assert(query_key(cleaned[w].query) == k);
        } else {
            assert(query_key(cleaned[w + 1].query) == k);
        }
    }
}

/// The position of the entry stored under the query's key, if any.
fn find_entry(entries: &Vec<CacheEntry>, q: &Query) -> (r: Option<usize>)
    ensures
        match r {
            Some(i) => i < entries@.len() && query_key(entries@[i as int].query) == query_key(*q),
            None => !cache_contains(entries@, query_key(*q)),
        },
{
    let mut i: usize = 0;
    while i < entries.len()
        invariant
            i <= entries@.len(),
            forall|j: int| 0 <= j < i ==> query_key(entries@[j].query) != query_key(*q),
        decreases entries@.len() - i,
    {
        if query_eq(&entries[i].query, q) {
            return Some(i);
        }
        i += 1;
    }
    None
}

impl Default for ResultCache {
    /// An empty cache with the default capacity of 4096 entries.
    fn default() -> (r: ResultCache)
        ensures
            cache_inv(r),
            r.cap == 4096,
            r.entries@.len() == 0,
    {
        ResultCache::with_capacity(4096)
    }
}

impl ResultCache {
    /// An empty cache with the given capacity.
    pub fn with_capacity(cap: usize) -> (r: ResultCache)
        requires
            cap >= 1,
        ensures
            cache_inv(r),
            r.cap == cap,
            r.entries@.len() == 0,
    {
        ResultCache { entries: Vec::new(), cap }
    }

    /// Decide well-formedness at run time, for callers outside the proof.
    pub fn is_well_formed(&self) -> (r: bool)
        ensures
            r == cache_inv(*self),
    {
        if self.cap < 1 {
            return false;
        }
        if self.entries.len() > self.cap {
            return false;
        }
        let mut i: usize = 0;
        while i < self.entries.len()
            invariant
                i <= self.entries@.len(),
                self.cap >= 1,
                self.entries@.len() <= self.cap,
                forall|a: int, b: int|
                    0 <= a < b < self.entries@.len() && a < i ==> query_key(
                        self.entries@[a].query,
                    ) != query_key(self.entries@[b].query),
            decreases self.entries@.len() - i,
        {
            let mut j: usize = i + 1;
            while j < self.entries.len()
                invariant
                    i < j <= self.entries@.len(),
                    forall|b: int|
                        i < b < j ==> query_key(self.entries@[i as int].query) != query_key(
                            self.entries@[b].query,
                        ),
                decreases self.entries@.len() - j,
            {
                if query_eq(&self.entries[i].query, &self.entries[j].query) {
                    return false;
                }
                j += 1;
            }
            i += 1;
        }
        true
    }

    /// Look a query up; a hit returns a copy of the stored list and makes
    /// the entry the most recently used.
    pub fn get(&mut self, q: &Query) -> (r: Option<Vec<MatchedCVE>>)
        requires
            cache_inv(*old(self)),
        ensures
            cache_inv(*final (self)),
            final (self).cap == old(self).cap,
            match r {
                None => {
                    &&& !cache_contains(old(self).entries@, query_key(*q))
                    &&& final (self).entries@ == old(self).entries@
                },
                Some(v) => {
                    &&& cache_contains(old(self).entries@, query_key(*q))
                    &&& Some(matched_list_view(v@)) == cache_lookup(
                        old(self).entries@,
                        query_key(*q),
                    )
                    &&& final (self).entries@ == spec_bump(
                        old(self).entries@,
                        cache_index(old(self).entries@, query_key(*q)),
                    )
                },
            },
    {
        let ghost s0 = self.entries@;
        let mut i: usize = 0;
        while i < self.entries.len()
            invariant
                cache_inv(*self),
                s0 == old(self).entries@,
                self.entries@ == s0,
                self.cap == old(self).cap,
                i <= self.entries@.len(),
                forall|j: int| 0 <= j < i ==> query_key(self.entries@[j].query) != query_key(*q),
            decreases self.entries@.len() - i,
        {
            if query_eq(&self.entries[i].query, q) {
                proof {
                    let d = cache_index(s0, query_key(*q));
                    assert(query_key(s0[i as int].query) == query_key(*q));
                    assert(0 <= d < s0.len() && query_key(s0[d].query) == query_key(*q));
                    assert(d == i as int);
                }
                let entry = self.entries.remove(i);
                let result = duplicate_matched_list(&entry.cves);
                self.entries.push(entry);
                proof {
                    assert(self.entries@ == spec_bump(s0, i as int));
                    assert forall|a: int, b: int|
                        0 <= a < b < self.entries@.len() implies query_key(
                        self.entries@[a].query,
                    ) != query_key(self.entries@[b].query) by {
                        let n = s0.len();
                        let orig = |x: int|
                            if x < i as int {
                                x
                            } else if x < n - 1 {
                                x + 1
                            } else {
                                i as int
                            };
                        assert(self.entries@[a] == s0[orig(a)]);
                        assert(self.entries@[b] == s0[orig(b)]);
                    }
                }
                return Some(result);
            }
            i += 1;
        }
        None
    }

    /// Insert a result list for a query, evicting the least recently used
    /// entry when the cache is full.
    pub fn put(&mut self, q: Query, cves: Vec<MatchedCVE>)
        requires
            cache_inv(*old(self)),
        ensures
            cache_inv(*final (self)),
            final (self).cap == old(self).cap,
            final (self).entries@ == spec_put(
                old(self).entries@,
                old(self).cap as int,
                (CacheEntry { query: q, cves: cves }),
            ),
    {
        let ghost s0 = self.entries@;
        let ghost k = query_key(q);
        match find_entry(&self.entries, &q) {
            Some(i) => {
                proof {
                    let d = cache_index(s0, k);
                    assert(query_key(s0[i as int].query) == k);
                    assert(0 <= d < s0.len() && query_key(s0[d].query) == k);
                    assert(d == i as int);
                }
                self.entries.remove(i);
            },
            None => {},
        }
        let ghost cleaned = self.entries@;
        proof {
            if cache_contains(s0, k) {
                assert(cleaned == s0.remove(cache_index(s0, k)));
            } else {
                assert(cleaned == s0);
            }
            assert forall|a: int, b: int| 0 <= a < b < cleaned.len() implies query_key(
                cleaned[a].query,
            ) != query_key(cleaned[b].query) by {
                if cache_contains(s0, k) {
                    let d = cache_index(s0, k);
                    let orig = |x: int|
                        if x < d {
                            x
                        } else {
                            x + 1
                        };
                    assert(cleaned[a] == s0[orig(a)]);
                    assert(cleaned[b] == s0[orig(b)]);
                }
            }
            assert forall|a: int| 0 <= a < cleaned.len() implies query_key(cleaned[a].query)
                != k by {
                if cache_contains(s0, k) {
                    let d = cache_index(s0, k);
                    if a < d {
                        assert(cleaned[a] == s0[a]);
                    } else {
                        assert(cleaned[a] == s0[a + 1]);
                    }
                }
            }
        }
        self.entries.push(CacheEntry { query: q, cves });
        if self.entries.len() > self.cap {
            self.entries.remove(0);
            proof {
                assert(self.entries@ == cleaned.push(
                    (CacheEntry { query: q, cves: cves }),
                ).subrange(1, cleaned.push((CacheEntry { query: q, cves: cves })).len() as int));
            }
        }
        proof {
            let e = (CacheEntry { query: q, cves: cves });
            let pushed = cleaned.push(e);
            assert forall|a: int, b: int| 0 <= a < b < pushed.len() implies query_key(
                pushed[a].query,
            ) != query_key(pushed[b].query) by {
                if b == pushed.len() - 1 {
                    assert(query_key(pushed[a].query) != k);
                }
            }
            if pushed.len() > self.cap {
                assert forall|a: int, b: int|
                    0 <= a < b < self.entries@.len() implies query_key(self.entries@[a].query)
                    != query_key(self.entries@[b].query) by {
                    assert(self.entries@[a] == pushed[a + 1]);
                    assert(self.entries@[b] == pushed[b + 1]);
                }
            }
        }
    }
}

} // verus!
