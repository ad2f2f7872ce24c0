//! A table of the latest value seen under each name, kept in the order in
//! which names first appeared.
use vstd::prelude::*;
use crate::text::same_text;

verus! {

/// The map that a list of named entries stands for: a later entry for a
/// name wins over an earlier one.
pub open spec fn entries_map<V>(s: Seq<(String, V)>) -> Map<Seq<char>, V>
    decreases s.len(),
{
    if s.len() == 0 {
        Map::empty()
    } else {
        entries_map(s.drop_last()).insert(s.last().0@, s.last().1)
    }
}

/// Whether no two entries share a name.
pub open spec fn names_unique<V>(s: Seq<(String, V)>) -> bool {
    forall|i: int, j: int| 0 <= i < j < s.len() ==> s[i].0@ != s[j].0@
}

proof fn lemma_update_in_place<V>(s: Seq<(String, V)>, i: int, e: (String, V))
    requires
        names_unique(s),
        0 <= i < s.len(),
        s[i].0@ == e.0@,
    ensures
        entries_map(s.update(i, e)) == entries_map(s).insert(e.0@, e.1),
        names_unique(s.update(i, e)),
    decreases s.len(),
{
    let t = s.update(i, e);
    if i == s.len() - 1 {
        assert(t.drop_last() =~= s.drop_last());
        assert(entries_map(t) =~= entries_map(s).insert(e.0@, e.1));
    } else {
        assert(t.drop_last() =~= s.drop_last().update(i, e));
        lemma_update_in_place(s.drop_last(), i, e);
        assert(s.last().0@ != e.0@);
        assert(entries_map(t) =~= entries_map(s).insert(e.0@, e.1));
    }
}

proof fn lemma_lookup<V>(s: Seq<(String, V)>, i: int)
    requires
        names_unique(s),
        0 <= i < s.len(),
    ensures
        entries_map(s).contains_key(s[i].0@),
        entries_map(s)[s[i].0@] == s[i].1,
{
    lemma_update_in_place(s, i, s[i]);
    assert(s.update(i, s[i]) =~= s);
}

proof fn lemma_map_has_exactly_names<V>(s: Seq<(String, V)>, k: Seq<char>)
    ensures
        entries_map(s).contains_key(k) <==> exists|i: int| 0 <= i < s.len() && s[i].0@ == k,
    decreases s.len(),
{
    if s.len() > 0 {
        lemma_map_has_exactly_names(s.drop_last(), k);
        if entries_map(s.drop_last()).contains_key(k) {
            let i = choose|i: int| 0 <= i < s.len() - 1 && s.drop_last()[i].0@ == k;
            assert(s[i].0@ == k);
        }
        if exists|i: int| 0 <= i < s.len() && s[i].0@ == k {
            let i = choose|i: int| 0 <= i < s.len() && s[i].0@ == k;
            if i < s.len() - 1 {
                assert(s.drop_last()[i].0@ == k);
            }
        }
    }
}

proof fn lemma_reset_values<V>(s: Seq<(String, V)>, t: Seq<(String, V)>, v: V)
    requires
        s.len() == t.len(),
        forall|i: int| 0 <= i < s.len() ==> #[trigger] t[i] == (s[i].0, v),
    ensures
        entries_map(t) == Map::new(|k: Seq<char>| entries_map(s).contains_key(k), |k: Seq<char>| v),
    decreases s.len(),
{
    if s.len() > 0 {
        lemma_reset_values(s.drop_last(), t.drop_last(), v);
        assert(t.last() == (s.last().0, v));
    }
    assert(entries_map(t) =~= Map::new(
        |k: Seq<char>| entries_map(s).contains_key(k),
        |k: Seq<char>| v,
    ));
}

/// The latest value seen under each name.
pub struct LatestValues<V> {
    entries: Vec<(String, V)>,
}

impl<V: Copy> LatestValues<V> {
    pub closed spec fn wf(&self) -> bool {
        names_unique(self.entries@)
    }

    /// The latest value under each name seen so far.
    pub closed spec fn map(&self) -> Map<Seq<char>, V> {
        entries_map(self.entries@)
    }

    /// An empty table.
    pub fn new() -> (r: Self)
        ensures
            r.wf(),
            r.map() == Map::<Seq<char>, V>::empty(),
    {
        LatestValues { entries: Vec::new() }
    }

    /// Records `value` as the latest under `name`.
    pub fn record(&mut self, name: &str, value: V)
        requires
            old(self).wf(),
        ensures
            final(self).wf(),
            final(self).map() == old(self).map().insert(name@, value),
    {
        let mut i: usize = 0;
        while i < self.entries.len()
            invariant
                i <= self.entries@.len(),
                self.entries@ == old(self).entries@,
                names_unique(self.entries@),
                forall|j: int| 0 <= j < i ==> self.entries@[j].0@ != name@,
            decreases self.entries@.len() - i,
        {
            if same_text(self.entries[i].0.as_str(), name) {
                let owned = name.to_owned();
                proof {
                    lemma_update_in_place(self.entries@, i as int, (owned, value));
                }
                self.entries.set(i, (owned, value));
                return;
            }
            i += 1;
        }
        self.entries.push((name.to_owned(), value));
        assert(self.entries@.drop_last() == old(self).entries@);
    }

    /// The latest value under `name`, if any was seen.
    pub fn get(&self, name: &str) -> (r: Option<V>)
        requires
            self.wf(),
        ensures
            r == (if self.map().contains_key(name@) {
                Some(self.map()[name@])
            } else {
                None
            }),
    {
        let mut i: usize = 0;
        while i < self.entries.len()
            invariant
                i <= self.entries@.len(),
                names_unique(self.entries@),
                forall|j: int| 0 <= j < i ==> self.entries@[j].0@ != name@,
            decreases self.entries@.len() - i,
        {
            if same_text(self.entries[i].0.as_str(), name) {
                proof {
                    lemma_lookup(self.entries@, i as int);
                }
                return Some(self.entries[i].1);
            }
            i += 1;
        }
        proof {
            lemma_map_has_exactly_names(self.entries@, name@);
        }
        None
    }

    /// Sets the value under every name seen so far to `value`.
    pub fn reset_all(&mut self, value: V)
        requires
            old(self).wf(),
        ensures
            final(self).wf(),
            final(self).map() == Map::new(
                |k: Seq<char>| old(self).map().contains_key(k),
                |k: Seq<char>| value,
            ),
    {
        let ghost start = self.entries@;
        let mut i: usize = 0;
        while i < self.entries.len()
            invariant
                i <= self.entries@.len(),
                self.entries@.len() == start.len(),
                forall|j: int| 0 <= j < i ==> #[trigger] self.entries@[j] == (start[j].0, value),
                forall|j: int| i <= j < start.len() ==> #[trigger] self.entries@[j] == start[j],
            decreases self.entries@.len() - i,
        {
            let name = self.entries[i].0.clone();
            self.entries.set(i, (name, value));
            i += 1;
        }
        proof {
            lemma_reset_values(start, self.entries@, value);
            assert forall|a: int, b: int| 0 <= a < b < self.entries@.len() implies self.entries@[a].0@
                != self.entries@[b].0@ by {
                assert(self.entries@[a] == (start[a].0, value));
                assert(self.entries@[b] == (start[b].0, value));
            }
        }
    }

    /// The entries, one per name, in the order names first appeared.
    pub fn entries(&self) -> (r: &Vec<(String, V)>)
        requires
            self.wf(),
        ensures
            entries_map(r@) == self.map(),
            names_unique(r@),
    {
        &self.entries
    }
}

} // verus!
