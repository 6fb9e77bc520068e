//! Tables of live entities, keyed by the client-chosen 32-bit id.
//!
//! Each per-connection entity kind (publishers, subscribers, queryables,
//! queriers, liveliness tokens and subscribers, matching listeners) gets
//! one [`EntityTable`] mapping the entity id to its key expression. Within
//! one table ids are unique while alive; insertion order carries no
//! meaning, so the table's view is a map. The table must also be walked
//! for teardown and admin snapshots, which is why it is kept as a plain
//! vector of rows rather than a hash map.

use vstd::prelude::*;

verus! {

/// The map a row list denotes: later rows win, though with unique ids the
/// order never matters.
pub open spec fn map_of(s: Seq<(u32, Seq<u8>)>) -> Map<u32, Seq<u8>>
    decreases s.len(),
{
    if s.len() == 0 {
        Map::empty()
    } else {
        map_of(s.drop_last()).insert(s.last().0, s.last().1)
    }
}

pub open spec fn rows_unique(s: Seq<(u32, Seq<u8>)>) -> bool {
    forall|i: int, j: int| 0 <= i < j < s.len() ==> (#[trigger] s[i]).0 != (#[trigger] s[j]).0
}

proof fn lemma_map_of_membership(s: Seq<(u32, Seq<u8>)>, k: u32)
    ensures
        map_of(s).dom().contains(k) <==> exists|i: int|
            0 <= i < s.len() && (#[trigger] s[i]).0 == k,
    decreases s.len(),
{
    if s.len() > 0 {
        lemma_map_of_membership(s.drop_last(), k);
        if s.last().0 == k {
            assert(s[s.len() - 1].0 == k);
        } else if map_of(s).dom().contains(k) {
            let i = choose|i: int| 0 <= i < s.drop_last().len() && (#[trigger] s.drop_last()[i]).0
                == k;
            assert(s[i].0 == k);
        } else {
            assert forall|i: int| 0 <= i < s.len() implies (#[trigger] s[i]).0 != k by {
                if i < s.len() - 1 {
                    assert(s.drop_last()[i] == s[i]);
                }
            }
        }
    }
}

proof fn lemma_map_of_get(s: Seq<(u32, Seq<u8>)>, i: int)
    requires
        rows_unique(s),
        0 <= i < s.len(),
    ensures
        map_of(s).dom().contains(s[i].0),
        map_of(s)[s[i].0] == s[i].1,
    decreases s.len(),
{
    if i == s.len() - 1 {
    } else {
        assert(s.drop_last()[i] == s[i]);
        lemma_map_of_get(s.drop_last(), i);
        assert(s[s.len() - 1].0 != s[i].0);
    }
}

proof fn lemma_remove_unique(s: Seq<(u32, Seq<u8>)>, i: int)
    requires
        rows_unique(s),
        0 <= i < s.len(),
    ensures
        rows_unique(s.remove(i)),
{
    let t = s.remove(i);
    assert forall|a: int, b: int| 0 <= a < b < t.len() implies (#[trigger] t[a]).0 != (
    #[trigger] t[b]).0 by {
        let a0 = if a < i {
            a
        } else {
            a + 1
        };
        let b0 = if b < i {
            b
        } else {
            b + 1
        };
        assert(t[a] == s[a0] && t[b] == s[b0]);
    }
}

proof fn lemma_map_of_remove(s: Seq<(u32, Seq<u8>)>, i: int)
    requires
        rows_unique(s),
        0 <= i < s.len(),
    ensures
        map_of(s.remove(i)) == map_of(s).remove(s[i].0),
    decreases s.len(),
{
    let k = s[i].0;
    if i == s.len() - 1 {
        assert(s.remove(i) =~= s.drop_last());
        lemma_map_of_membership(s.drop_last(), k);
        assert forall|j: int| 0 <= j < s.drop_last().len() implies (#[trigger] s.drop_last()[j]).0
            != k by {
            assert(s.drop_last()[j] == s[j]);
        }
        assert(!map_of(s.drop_last()).dom().contains(k));
        assert(map_of(s.drop_last()) =~= map_of(s.drop_last()).insert(k, s[i].1).remove(k));
    } else {
        let t = s.drop_last();
        let last = s.last();
        assert(s.remove(i).len() == s.len() - 1);
        assert(s.remove(i).last() == last);
        assert(s.remove(i).drop_last() =~= t.remove(i));
        assert(t[i] == s[i]);
        lemma_map_of_remove(t, i);
        assert(last.0 != k);
        assert(map_of(t).remove(k).insert(last.0, last.1) =~= map_of(t).insert(
            last.0,
            last.1,
        ).remove(k));
    }
}

/// The rows as the specification sees them.
pub open spec fn rows_view(es: Seq<(u32, Vec<u8>)>) -> Seq<(u32, Seq<u8>)> {
    es.map_values(|p: (u32, Vec<u8>)| (p.0, p.1@))
}

/// A table of live entities of one kind: entity id to key expression.
pub struct EntityTable {
    entries: Vec<(u32, Vec<u8>)>,
}

impl View for EntityTable {
    type V = Map<u32, Seq<u8>>;

    closed spec fn view(&self) -> Map<u32, Seq<u8>> {
        map_of(rows_view(self.entries@))
    }
}

impl EntityTable {
    /// Ids are unique while alive.
    pub closed spec fn wf(self) -> bool {
        rows_unique(rows_view(self.entries@))
    }

    pub fn new() -> (t: EntityTable)
        ensures
            t.wf(),
            t@ == Map::<u32, Seq<u8>>::empty(),
    {
        let t = EntityTable { entries: Vec::new() };
        proof {
            assert(rows_view(t.entries@) =~= Seq::<(u32, Seq<u8>)>::empty());
        }
        t
    }

    pub fn contains(&self, id: u32) -> (r: bool)
        requires
            self.wf(),
        ensures
            r == self@.dom().contains(id),
    {
        proof {
            lemma_map_of_membership(rows_view(self.entries@), id);
        }
        let n = self.entries.len();
        let mut i: usize = 0;
        while i < n
            invariant
                self.wf(),
                i <= n,
                n == self.entries@.len(),
                forall|j: int| 0 <= j < i ==> (#[trigger] self.entries@[j]).0 != id,
            decreases n - i,
        {
            if self.entries[i].0 == id {
                proof {
                    lemma_map_of_membership(rows_view(self.entries@), id);
                    assert(rows_view(self.entries@)[i as int].0 == id);
                }
                return true;
            }
            i = i + 1;
        }
        proof {
            assert forall|j: int| 0 <= j < rows_view(self.entries@).len() implies (
            #[trigger] rows_view(self.entries@)[j]).0 != id by {
                assert(self.entries@[j].0 != id);
            }
        }
        false
    }

    pub fn insert(&mut self, id: u32, key: Vec<u8>)
        requires
            old(self).wf(),
            !old(self)@.dom().contains(id),
        ensures
            final(self).wf(),
            final(self)@ == old(self)@.insert(id, key@),
    {
        proof {
            lemma_map_of_membership(rows_view(old(self).entries@), id);
        }
        let ghost k = key@;
        self.entries.push((id, key));
        proof {
            let old_rows = rows_view(old(self).entries@);
            let new_rows = rows_view(self.entries@);
            assert(new_rows =~= old_rows.push((id, k)));
            assert(new_rows.drop_last() =~= old_rows);
            assert forall|a: int, b: int| 0 <= a < b < new_rows.len() implies (
            #[trigger] new_rows[a]).0 != (#[trigger] new_rows[b]).0 by {
                if b == new_rows.len() - 1 {
                    assert(new_rows[a] == old_rows[a]);
                }
            }
        }
    }

    pub fn remove(&mut self, id: u32) -> (r: bool)
        requires
            old(self).wf(),
        ensures
            final(self).wf(),
            r == old(self)@.dom().contains(id),
            final(self)@ == old(self)@.remove(id),
            !r ==> *final(self) == *old(self),
    {
        proof {
            lemma_map_of_membership(rows_view(self.entries@), id);
        }
        let n = self.entries.len();
        let mut i: usize = 0;
        while i < n
            invariant
                old(self).wf(),
                i <= n,
                n == self.entries@.len(),
                *self == *old(self),
                forall|j: int| 0 <= j < i ==> (#[trigger] self.entries@[j]).0 != id,
            decreases n - i,
        {
            if self.entries[i].0 == id {
                proof {
                    let rows = rows_view(self.entries@);
                    assert(rows[i as int].0 == id);
                    lemma_map_of_membership(rows, id);
                    lemma_map_of_get(rows, i as int);
                    lemma_map_of_remove(rows, i as int);
                    lemma_remove_unique(rows, i as int);
                }
                self.entries.remove(i);
                proof {
                    assert(rows_view(self.entries@) =~= rows_view(old(self).entries@).remove(
                        i as int,
                    ));
                }
                return true;
            }
            i = i + 1;
        }
        proof {
            assert forall|j: int| 0 <= j < rows_view(self.entries@).len() implies (
            #[trigger] rows_view(self.entries@)[j]).0 != id by {
                assert(self.entries@[j].0 != id);
            }
            assert(!old(self)@.dom().contains(id));
            assert(self@ =~= old(self)@.remove(id));
        }
        false
    }

    pub fn clear(&mut self)
        ensures
            final(self).wf(),
            final(self)@ == Map::<u32, Seq<u8>>::empty(),
    {
        self.entries = Vec::new();
        proof {
            assert(rows_view(self.entries@) =~= Seq::<(u32, Seq<u8>)>::empty());
        }
    }

    /// The live rows, for admin snapshots and teardown. Every listed row is
    /// in the table, and every live id is listed.
    pub fn items(&self) -> (r: &Vec<(u32, Vec<u8>)>)
        requires
            self.wf(),
        ensures
            forall|j: int|
                0 <= j < r@.len() ==> self@.contains_pair(
                    (#[trigger] r@[j]).0,
                    r@[j].1@,
                ),
            forall|k: u32|
                self@.dom().contains(k) ==> exists|j: int|
                    0 <= j < r@.len() && (#[trigger] r@[j]).0 == k,
    {
        proof {
            let rows = rows_view(self.entries@);
            assert forall|j: int| 0 <= j < self.entries@.len() implies self@.contains_pair(
                (#[trigger] self.entries@[j]).0,
                self.entries@[j].1@,
            ) by {
                lemma_map_of_get(rows, j);
            }
            assert forall|k: u32| self@.dom().contains(k) implies exists|j: int|
                0 <= j < self.entries@.len() && (#[trigger] self.entries@[j]).0 == k by {
                lemma_map_of_membership(rows, k);
                let j = choose|j: int| 0 <= j < rows.len() && (#[trigger] rows[j]).0 == k;
                assert(self.entries@[j].0 == k);
            }
        }
        &self.entries
    }
}

} // verus!
