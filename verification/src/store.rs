//! The in-memory storage backend.
//!
//! Pastes are held as a list of `(id, content)` pairs with pairwise distinct
//! ids; the abstract state is the association map over that list. Fresh ids
//! come from a random draw, with a deterministic fallback on the (practically
//! impossible) collision.

use vstd::prelude::*;

use crate::error::AppError;
use crate::id::random_id;
use crate::paste::{Paste, PasteStore};

verus! {

/// The association map over a list of `(id, content)` pairs.
pub open spec fn entries_map(s: Seq<(u128, String)>) -> Map<u128, Seq<char>>
    decreases s.len(),
{
    if s.len() == 0 {
        Map::empty()
    } else {
        entries_map(s.drop_last()).insert(s.last().0, s.last().1@)
    }
}

/// No id occurs twice in the list.
pub open spec fn unique_ids(s: Seq<(u128, String)>) -> bool {
    forall|i: int, j: int| 0 <= i < j < s.len() ==> s[i].0 != s[j].0
}

/// An id is in the association map exactly when some pair of the list holds
/// it.
pub proof fn lemma_entries_map_key(s: Seq<(u128, String)>, k: u128)
    ensures
        entries_map(s).contains_key(k) <==> exists|i: int| 0 <= i < s.len() && s[i].0 == k,
    decreases s.len(),
{
    if s.len() > 0 {
        lemma_entries_map_key(s.drop_last(), k);
        if s.last().0 == k {
            assert(s[s.len() - 1].0 == k);
        } else if entries_map(s).contains_key(k) {
            let i = choose|i: int| 0 <= i < s.drop_last().len() && s.drop_last()[i].0 == k;
            assert(s[i].0 == k);
        } else {
            assert forall|i: int| 0 <= i < s.len() implies s[i].0 != k by {
                if i < s.len() - 1 {
                    assert(s.drop_last()[i].0 == s[i].0);
                }
            }
        }
    }
}

/// Under unique ids, the pair at index `i` is what the association map holds
/// for its id.
pub proof fn lemma_entries_map_index(s: Seq<(u128, String)>, i: int)
    requires
        unique_ids(s),
        0 <= i < s.len(),
    ensures
        entries_map(s).contains_key(s[i].0),
        entries_map(s)[s[i].0] == s[i].1@,
    decreases s.len(),
{
    if i < s.len() - 1 {
        assert(unique_ids(s.drop_last()));
        assert(s.drop_last()[i] == s[i]);
        lemma_entries_map_index(s.drop_last(), i);
        assert(s[i].0 != s.last().0);
    }
}

/// Under unique ids, the association map is finite and has one entry per
/// pair.
pub proof fn lemma_entries_map_len(s: Seq<(u128, String)>)
    requires
        unique_ids(s),
    ensures
        entries_map(s).dom().finite(),
        entries_map(s).len() == s.len(),
    decreases s.len(),
{
    if s.len() > 0 {
        assert(unique_ids(s.drop_last()));
        lemma_entries_map_len(s.drop_last());
        lemma_entries_map_key(s.drop_last(), s.last().0);
        assert forall|i: int| 0 <= i < s.drop_last().len() implies s.drop_last()[i].0
            != s.last().0 by {
            assert(s.drop_last()[i] == s[i]);
        }
        assert(!entries_map(s.drop_last()).contains_key(s.last().0));
    }
}

/// Under unique ids, removing the pair at index `i` removes exactly its id
/// from the association map.
pub proof fn lemma_entries_map_remove(s: Seq<(u128, String)>, i: int)
    requires
        unique_ids(s),
        0 <= i < s.len(),
    ensures
        entries_map(s.remove(i)) == entries_map(s).remove(s[i].0),
    decreases s.len(),
{
    let k = s[i].0;
    if i == s.len() - 1 {
        assert(s.remove(i) =~= s.drop_last());
        lemma_entries_map_key(s.drop_last(), k);
        assert forall|j: int| 0 <= j < s.drop_last().len() implies s.drop_last()[j].0 != k by {
            assert(s.drop_last()[j] == s[j]);
        }
        assert(!entries_map(s.drop_last()).contains_key(k));
        assert(entries_map(s.drop_last()).insert(k, s.last().1@).remove(k) =~= entries_map(
            s.drop_last(),
        ));
    } else {
        assert(unique_ids(s.drop_last()));
        lemma_entries_map_remove(s.drop_last(), i);
        assert(s.remove(i).drop_last() =~= s.drop_last().remove(i));
        assert(s.remove(i).last() == s.last());
        assert(s.drop_last()[i] == s[i]);
        assert(k != s.last().0);
        assert(entries_map(s.drop_last()).remove(k).insert(s.last().0, s.last().1@)
            =~= entries_map(s.drop_last()).insert(s.last().0, s.last().1@).remove(k));
        assert(entries_map(s.remove(i)) == entries_map(s.drop_last().remove(i)).insert(
            s.last().0,
            s.last().1@,
        ));
    }
}

/// A finite map containing every id below `c` has at least `c` entries.
pub proof fn lemma_all_below_in_map(m: Map<u128, Seq<char>>, c: int)
    requires
        m.dom().finite(),
        0 <= c <= u128::MAX + 1,
        forall|j: u128| j < c ==> m.contains_key(j),
    ensures
        m.len() >= c,
    decreases c,
{
    if c > 0 {
        let k = (c - 1) as u128;
        assert(m.contains_key(k));
        let m2 = m.remove(k);
        assert(forall|j: u128| j < k ==> m2.contains_key(j));
        lemma_all_below_in_map(m2, c - 1);
    }
}

/// The in-memory backend: an association list of pastes with unique ids,
/// suitable for tests and local runs.
pub struct MemStore {
    pub entries: Vec<(u128, String)>,
}

impl MemStore {
    /// An empty store.
    pub fn new() -> (s: MemStore)
        ensures
            s.wf(),
            s.pastes() == Map::<u128, Seq<char>>::empty(),
    {
        MemStore { entries: Vec::new() }
    }

    /// Is `id` currently live?
    fn contains_id(&self, id: u128) -> (r: bool)
        requires
            self.wf(),
        ensures
            r == self.pastes().contains_key(id),
    {
        let n = self.entries.len();
        let mut i: usize = 0;
        while i < n
            invariant
                n == self.entries@.len(),
                i <= n,
                forall|j: int| 0 <= j < i ==> self.entries@[j].0 != id,
            decreases n - i,
        {
            if self.entries[i].0 == id {
                proof {
                    lemma_entries_map_key(self.entries@, id);
                }
                return true;
            }
            i += 1;
        }
        proof {
            lemma_entries_map_key(self.entries@, id);
        }
        false
    }

    /// The least id that is not live; used when a random draw collides.
    fn first_free_id(&self) -> (id: u128)
        requires
            self.wf(),
        ensures
            !self.pastes().contains_key(id),
    {
        let n = self.entries.len();
        let mut c: u128 = 0;
        while self.contains_id(c)
            invariant
                self.wf(),
                n == self.entries@.len(),
                c <= n,
                forall|j: u128| j < c ==> self.pastes().contains_key(j),
            decreases n - c,
        {
            proof {
                lemma_entries_map_len(self.entries@);
                assert forall|j: u128| j < c + 1 implies self.pastes().contains_key(j) by {
                    if j < c {
                    } else {
                        assert(j == c);
                    }
                }
                lemma_all_below_in_map(self.pastes(), c + 1);
            }
            c = c + 1;
        }
        c
    }
}

impl PasteStore for MemStore {
    open spec fn pastes(&self) -> Map<u128, Seq<char>> {
        entries_map(self.entries@)
    }

    open spec fn wf(&self) -> bool {
        unique_ids(self.entries@)
    }

    fn create(&mut self, content: String) -> (r: Result<Paste, AppError>)
        ensures
            r is Ok,
    {
        let mut id = random_id();
        if self.contains_id(id) {
            id = self.first_free_id();
        }
        proof {
            lemma_entries_map_key(self.entries@, id);
            assert forall|i: int| 0 <= i < self.entries@.len() implies self.entries@[i].0
                != id by {
                if self.entries@[i].0 == id {
                    assert(exists|j: int| 0 <= j < self.entries@.len() && self.entries@[j].0 == id);
                }
            }
        }
        let stored = content.clone();
        self.entries.push((id, stored));
        proof {
            assert(self.entries@.drop_last() =~= old(self).entries@);
        }
        Ok(Paste { id, content })
    }

    fn get(&self, id: u128) -> (r: Result<Option<Paste>, AppError>)
        ensures
            r is Ok,
    {
        let n = self.entries.len();
        let mut i: usize = 0;
        while i < n
            invariant
                self.wf(),
                n == self.entries@.len(),
                i <= n,
                forall|j: int| 0 <= j < i ==> self.entries@[j].0 != id,
            decreases n - i,
        {
            if self.entries[i].0 == id {
                proof {
                    lemma_entries_map_index(self.entries@, i as int);
                }
                let content = self.entries[i].1.clone();
                return Ok(Some(Paste { id, content }));
            }
            i += 1;
        }
        proof {
            lemma_entries_map_key(self.entries@, id);
        }
        Ok(None)
    }

    fn remove(&mut self, id: u128) -> (r: Result<Option<Paste>, AppError>)
        ensures
            r is Ok,
    {
        let n = self.entries.len();
        let mut i: usize = 0;
        while i < n
            invariant
                self == old(self),
                self.wf(),
                n == self.entries@.len(),
                i <= n,
                forall|j: int| 0 <= j < i ==> self.entries@[j].0 != id,
            decreases n - i,
        {
            if self.entries[i].0 == id {
                proof {
                    lemma_entries_map_index(self.entries@, i as int);
                    lemma_entries_map_remove(self.entries@, i as int);
                    assert forall|a: int, b: int|
                        0 <= a < b < self.entries@.remove(i as int).len() implies self.entries@.remove(
                        i as int,
                    )[a].0 != self.entries@.remove(i as int)[b].0 by {
                        assert(self.entries@.remove(i as int)[a] == if a < i {
                            self.entries@[a]
                        } else {
                            self.entries@[a + 1]
                        });
                        assert(self.entries@.remove(i as int)[b] == if b < i {
                            self.entries@[b]
                        } else {
                            self.entries@[b + 1]
                        });
                    }
                }
                let entry = self.entries.remove(i);
                return Ok(Some(Paste { id: entry.0, content: entry.1 }));
            }
            i += 1;
        }
        proof {
            lemma_entries_map_key(self.entries@, id);
        }
        Ok(None)
    }
}

} // verus!
