//! The bounded table of in-flight queries.
//!
//! Queries received on a client's queryables are tagged with a fresh id and
//! kept until the client sends its final response. Because the fabric gives
//! no way to learn a query's timeout, the table is a least-recently-used
//! cache of fixed capacity: when a query arrives at capacity, the oldest
//! entry is evicted, and dropping the evicted handle is the implicit final
//! response.
//!
//! The cache itself is the `lru` crate's, held behind trusted wrappers; its
//! contents are modelled as the sequence of keys in recency order, most
//! recent first. The [`QueryTracker`] around it is verified: it never holds
//! more than [`MAX_PENDING_QUERIES`] entries and its keys stay distinct.

use vstd::prelude::*;
use vstd::seq_lib::group_seq_properties;

verus! {

#[verifier::external_type_specification]
#[verifier::external_body]
#[verifier::reject_recursive_types(K)]
#[verifier::reject_recursive_types(V)]
#[verifier::reject_recursive_types(S)]
pub struct ExLruCache<K, V, S>(lru::LruCache<K, V, S>);

/// The keys a cache holds, in recency order: most recently used first.
pub uninterp spec fn lru_keys(c: lru::LruCache<u32, (), std::collections::hash_map::RandomState>) -> Seq<u32>;

/// The capacity a cache was created with.
pub uninterp spec fn lru_cap(c: lru::LruCache<u32, (), std::collections::hash_map::RandomState>) -> usize;

/// The key sequence with every occurrence of `k` removed.
pub open spec fn seq_without(s: Seq<u32>, k: u32) -> Seq<u32> {
    s.filter(|x: u32| x != k)
}

/// Relies on `lru::LruCache::with_hasher`: the new cache is empty and
/// holds at most `cap` entries.
#[verifier::external_body]
fn lru_new(cap: usize) -> (c: lru::LruCache<u32, (), std::collections::hash_map::RandomState>)
    requires
        cap >= 1,
    ensures
        lru_keys(c) == Seq::<u32>::empty(),
        lru_cap(c) == cap,
{
    lru::LruCache::with_hasher(
        std::num::NonZeroUsize::new(cap).unwrap(),
        std::collections::hash_map::RandomState::new(),
    )
}

/// Relies on `lru::LruCache::push`: a known key is refreshed in place and
/// handed back; a fresh key is inserted at the front, evicting the least
/// recently used entry exactly when the cache is full.
#[verifier::external_body]
fn lru_push(c: &mut lru::LruCache<u32, (), std::collections::hash_map::RandomState>, k: u32) -> (evicted: Option<u32>)
    ensures
        lru_cap(*final(c)) == lru_cap(*old(c)),
        lru_keys(*old(c)).contains(k) ==> {
            &&& lru_keys(*final(c)) == seq![k] + seq_without(lru_keys(*old(c)), k)
            &&& evicted == Some(k)
        },
        !lru_keys(*old(c)).contains(k) && lru_keys(*old(c)).len() == lru_cap(*old(c)) ==> {
            &&& lru_keys(*final(c)) == seq![k] + lru_keys(*old(c)).drop_last()
            &&& evicted == Some(lru_keys(*old(c)).last())
        },
        !lru_keys(*old(c)).contains(k) && lru_keys(*old(c)).len() != lru_cap(*old(c)) ==> {
            &&& lru_keys(*final(c)) == seq![k] + lru_keys(*old(c))
            &&& evicted is None
        },
{
    c.push(k, ()).map(|p| p.0)
}

/// Relies on `lru::LruCache::get`: reports whether the key is present and
/// moves it to the front of the recency order if it is.
#[verifier::external_body]
fn lru_touch(c: &mut lru::LruCache<u32, (), std::collections::hash_map::RandomState>, k: u32) -> (r: bool)
    ensures
        lru_cap(*final(c)) == lru_cap(*old(c)),
        r == lru_keys(*old(c)).contains(k),
        r ==> lru_keys(*final(c)) == seq![k] + seq_without(lru_keys(*old(c)), k),
        !r ==> lru_keys(*final(c)) == lru_keys(*old(c)),
{
    c.get(&k).is_some()
}

/// Relies on `lru::LruCache::pop`: removes the key if present, keeping the
/// order of the others.
#[verifier::external_body]
fn lru_pop(c: &mut lru::LruCache<u32, (), std::collections::hash_map::RandomState>, k: u32) -> (r: bool)
    ensures
        lru_cap(*final(c)) == lru_cap(*old(c)),
        r == lru_keys(*old(c)).contains(k),
        lru_keys(*final(c)) == seq_without(lru_keys(*old(c)), k),
{
    c.pop(&k).is_some()
}

/// Relies on `lru::LruCache::len`.
#[verifier::external_body]
fn lru_len(c: &lru::LruCache<u32, (), std::collections::hash_map::RandomState>) -> (r: usize)
    ensures
        r == lru_keys(*c).len(),
{
    c.len()
}

/// Relies on `lru::LruCache::clear`.
#[verifier::external_body]
fn lru_clear(c: &mut lru::LruCache<u32, (), std::collections::hash_map::RandomState>)
    ensures
        lru_cap(*final(c)) == lru_cap(*old(c)),
        lru_keys(*final(c)) == Seq::<u32>::empty(),
{
    c.clear()
}

/// At most this many in-flight queries are tracked per connection.
pub const MAX_PENDING_QUERIES: usize = 1000;

proof fn lemma_filter_sub(s: Seq<u32>, k: u32)
    ensures
        seq_without(s, k).len() <= s.len(),
        s.contains(k) ==> seq_without(s, k).len() <= s.len() - 1,
        forall|x: u32| #[trigger] seq_without(s, k).contains(x) ==> s.contains(x) && x != k,
        s.no_duplicates() ==> seq_without(s, k).no_duplicates(),
    decreases s.len(),
{
    reveal(Seq::filter);
    broadcast use group_seq_properties;

    if s.len() == 0 {
        assert(seq_without(s, k) =~= Seq::<u32>::empty());
    } else {
        let t = s.drop_last();
        lemma_filter_sub(t, k);
        if s.contains(k) && s.last() != k {
            let i = choose|i: int| 0 <= i < s.len() && s[i] == k;
            assert(t[i] == k);
            assert(t.contains(k));
        }
        assert forall|x: u32| #[trigger] seq_without(s, k).contains(x) implies s.contains(x) && x
            != k by {
            if seq_without(t, k).contains(x) {
                let i = choose|i: int| 0 <= i < t.len() && t[i] == x;
                assert(s[i] == x);
            }
        }
        if s.no_duplicates() {
            assert(t.no_duplicates());
            if s.last() != k {
                assert(seq_without(s, k) == seq_without(t, k).push(s.last()));
                assert(!t.contains(s.last()));
                assert(!seq_without(t, k).contains(s.last()));
            }
        }
    }
}

/// Bounded memory for unanswered queries: a well-formed tracker never
/// holds more than [`MAX_PENDING_QUERIES`] query ids, and never the same id
/// twice. Every operation of the tracker preserves well-formedness, so this
/// holds in every reachable state.
pub proof fn lemma_pending_queries_bounded(t: QueryTracker)
    requires
        t.wf(),
    ensures
        t.keys().len() <= MAX_PENDING_QUERIES,
        t.keys().no_duplicates(),
{
}

/// The per-connection tracker of in-flight queries: a monotonic id counter
/// and the bounded recency table.
pub struct QueryTracker {
    cache: lru::LruCache<u32, (), std::collections::hash_map::RandomState>,
    counter: u32,
}

impl QueryTracker {
    /// The tracked query ids, most recently used first.
    pub closed spec fn keys(self) -> Seq<u32> {
        lru_keys(self.cache)
    }

    /// The id the next tracked query will get.
    pub closed spec fn counter(self) -> u32 {
        self.counter
    }

    /// The tracker never exceeds its capacity and never holds an id twice.
    pub open spec fn wf(self) -> bool {
        &&& self.keys().len() <= MAX_PENDING_QUERIES
        &&& self.keys().no_duplicates()
        &&& self.capacity() == MAX_PENDING_QUERIES
    }

    pub closed spec fn capacity(self) -> usize {
        lru_cap(self.cache)
    }

    pub fn new() -> (t: QueryTracker)
        ensures
            t.wf(),
            t.keys() == Seq::<u32>::empty(),
            t.counter() == 0u32,
    {
        QueryTracker { cache: lru_new(MAX_PENDING_QUERIES), counter: 0 }
    }

    /// Admits one query arriving on a queryable: draws the next id and
    /// tracks it. The evicted id is returned exactly when an entry had to
    /// leave: the oldest entry if the table was full, or a stale entry that
    /// carried the same id. Dropping the evicted query's handle is its
    /// implicit final response.
    pub fn track_new(&mut self) -> (r: (u32, Option<u32>))
        requires
            old(self).wf(),
        ensures
            final(self).wf(),
            r.0 == old(self).counter(),
            final(self).counter() == (if old(self).counter() == u32::MAX {
                0u32
            } else {
                (old(self).counter() + 1) as u32
            }),
            final(self).keys().contains(r.0),
            final(self).keys().len() <= MAX_PENDING_QUERIES,
            r.1 is Some <==> (old(self).keys().contains(r.0) || old(self).keys().len()
                == MAX_PENDING_QUERIES),
            old(self).keys().len() == MAX_PENDING_QUERIES && !old(self).keys().contains(r.0)
                ==> r.1 == Some(old(self).keys().last()),
            old(self).keys().contains(r.0) ==> r.1 == Some(r.0),
            !old(self).keys().contains(r.0) ==> final(self).keys() == seq![r.0] + (if old(
                self,
            ).keys().len() == MAX_PENDING_QUERIES {
                old(self).keys().drop_last()
            } else {
                old(self).keys()
            }),
    {
        let id = self.counter;
        self.counter = if self.counter == u32::MAX {
            0
        } else {
            self.counter + 1
        };
        let ghost pre = lru_keys(self.cache);
        let evicted = lru_push(&mut self.cache, id);
        proof {
            broadcast use group_seq_properties;

            lemma_filter_sub(pre, id);
            if pre.contains(id) {
                assert(!seq_without(pre, id).contains(id));
            } else if pre.len() == MAX_PENDING_QUERIES {
                assert(pre.drop_last().no_duplicates());
                assert(!pre.drop_last().contains(id));
            } else {
                assert(!pre.contains(id));
            }
            assert(self.keys()[0] == id);
            assert(self.keys().contains(id));
        }
        (id, evicted)
    }

    /// Reports whether a query id is still tracked, refreshing its recency
    /// if it is: used by the reply path, which keeps the query alive until
    /// the final response.
    pub fn touch(&mut self, id: u32) -> (r: bool)
        requires
            old(self).wf(),
        ensures
            final(self).wf(),
            r == old(self).keys().contains(id),
            r ==> final(self).keys() == seq![id] + seq_without(old(self).keys(), id),
            !r ==> final(self).keys() == old(self).keys(),
            final(self).counter() == old(self).counter(),
            final(self).keys().contains(id) == r,
    {
        let ghost pre = lru_keys(self.cache);
        let r = lru_touch(&mut self.cache, id);
        proof {
            broadcast use group_seq_properties;

            lemma_filter_sub(pre, id);
            if r {
                assert(!seq_without(pre, id).contains(id));
                assert(self.keys()[0] == id);
                assert(self.keys().contains(id));
            }
        }
        r
    }

    /// Removes a query id: the explicit final response. Reports whether it
    /// was still tracked.
    pub fn finish(&mut self, id: u32) -> (r: bool)
        requires
            old(self).wf(),
        ensures
            final(self).wf(),
            r == old(self).keys().contains(id),
            final(self).keys() == seq_without(old(self).keys(), id),
            !final(self).keys().contains(id),
            final(self).counter() == old(self).counter(),
    {
        let ghost pre = lru_keys(self.cache);
        let r = lru_pop(&mut self.cache, id);
        proof {
            lemma_filter_sub(pre, id);
        }
        r
    }

    /// Forgets every tracked query, on connection teardown.
    pub fn clear(&mut self)
        requires
            old(self).wf(),
        ensures
            final(self).wf(),
            final(self).keys() == Seq::<u32>::empty(),
    {
        lru_clear(&mut self.cache);
    }

    /// How many queries are in flight.
    pub fn len(&self) -> (r: usize)
        ensures
            r == self.keys().len(),
    {
        lru_len(&self.cache)
    }
}

} // verus!
