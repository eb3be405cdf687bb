//! The substitution map that catalog references hand to catalog entries: parameter
//! names and the text of the values assigned to them.
use vstd::prelude::*;
use crate::text::str_eq;

verus! {

/// Index of the last entry named `k`, or -1 when no entry is.
pub open spec fn last_index_of(s: Seq<(Seq<char>, Seq<char>)>, k: Seq<char>) -> int
    decreases s.len(),
{
    if s.len() == 0 {
        -1
    } else if s.last().0 == k {
        s.len() - 1
    } else {
        last_index_of(s.drop_last(), k)
    }
}

/// The value assigned to `k` in the entries `s`, if any.
pub open spec fn lookup_in(s: Seq<(Seq<char>, Seq<char>)>, k: Seq<char>) -> Option<Seq<char>> {
    let j = last_index_of(s, k);
    if j >= 0 {
        Some(s[j].1)
    } else {
        None
    }
}

/// The entries `s` after assigning `v` to `k`: the entry named `k` takes the new
/// value, or a new entry is appended when there is none.
pub open spec fn assign_in(s: Seq<(Seq<char>, Seq<char>)>, k: Seq<char>, v: Seq<char>) -> Seq<
    (Seq<char>, Seq<char>),
> {
    let j = last_index_of(s, k);
    if j >= 0 {
        s.update(j, (k, v))
    } else {
        s.push((k, v))
    }
}

/// `last_index_of` is -1 or an index of an entry with that name.
pub proof fn lemma_last_index_of_bounds(s: Seq<(Seq<char>, Seq<char>)>, k: Seq<char>)
    ensures
        -1 <= last_index_of(s, k) < s.len(),
        last_index_of(s, k) >= 0 ==> s[last_index_of(s, k)].0 == k,
    decreases s.len(),
{
    if s.len() > 0 && s.last().0 != k {
        lemma_last_index_of_bounds(s.drop_last(), k);
    }
}

proof fn lemma_last_index_after_update(
    s: Seq<(Seq<char>, Seq<char>)>,
    k: Seq<char>,
    v: Seq<char>,
    other: Seq<char>,
)
    requires
        last_index_of(s, k) >= 0,
    ensures
        last_index_of(s.update(last_index_of(s, k), (k, v)), k) == last_index_of(s, k),
        other != k ==> last_index_of(s.update(last_index_of(s, k), (k, v)), other)
            == last_index_of(s, other),
    decreases s.len(),
{
    lemma_last_index_of_bounds(s, k);
    let j = last_index_of(s, k);
    let t = s.update(j, (k, v));
    if j == s.len() - 1 {
        assert(t.drop_last() =~= s.drop_last());
    } else {
        assert(s.last().0 != k);
        assert(t.drop_last() =~= s.drop_last().update(j, (k, v)));
        lemma_last_index_after_update(s.drop_last(), k, v, other);
    }
}

/// Reading a name after assigning it gives the assigned value; every other name
/// keeps its value.
pub proof fn lemma_lookup_after_assign(
    s: Seq<(Seq<char>, Seq<char>)>,
    k: Seq<char>,
    v: Seq<char>,
    other: Seq<char>,
)
    ensures
        lookup_in(assign_in(s, k, v), k) == Some(v),
        other != k ==> lookup_in(assign_in(s, k, v), other) == lookup_in(s, other),
{
    lemma_last_index_of_bounds(s, k);
    lemma_last_index_of_bounds(s, other);
    if last_index_of(s, k) >= 0 {
        lemma_last_index_after_update(s, k, v, other);
    } else {
        let t = s.push((k, v));
        assert(t.drop_last() =~= s);
    }
}

/// Assigning a name that is already assigned keeps the names and their order;
/// assigning a new name appends it at the end.
pub proof fn lemma_names_after_assign(s: Seq<(Seq<char>, Seq<char>)>, k: Seq<char>, v: Seq<char>)
    ensures
        lookup_in(s, k) is Some ==> assign_in(s, k, v).map_values(|e: (Seq<char>, Seq<char>)| e.0)
            == s.map_values(|e: (Seq<char>, Seq<char>)| e.0),
        lookup_in(s, k) is None ==> assign_in(s, k, v).map_values(|e: (Seq<char>, Seq<char>)| e.0)
            == s.map_values(|e: (Seq<char>, Seq<char>)| e.0).push(k),
        assign_in(s, k, v).len() == if lookup_in(s, k) is Some { s.len() } else { s.len() + 1 },
{
    lemma_last_index_of_bounds(s, k);
    let t = assign_in(s, k, v);
    if lookup_in(s, k) is Some {
        assert(t.map_values(|e: (Seq<char>, Seq<char>)| e.0) =~= s.map_values(|e: (Seq<char>, Seq<char>)| e.0));
    } else {
        assert(t.map_values(|e: (Seq<char>, Seq<char>)| e.0) =~= s.map_values(|e: (Seq<char>, Seq<char>)| e.0).push(k));
    }
}

/// A map from parameter names to the text of their values.
///
/// The entries are held as a vector of pairs rather than a hash map: what a map lists
/// (the names that an error about a missing parameter reports) then comes in a fixed
/// order, the order in which names were first assigned, where a hash map's order would
/// change from run to run; and reading and writing are stated exactly over that list.
#[derive(Debug, Clone, PartialEq)]
pub struct ParameterMap {
    entries: Vec<(String, String)>,
}

impl View for ParameterMap {
    type V = Seq<(Seq<char>, Seq<char>)>;

    /// The entries, name and value, in the order in which names were first assigned.
    closed spec fn view(&self) -> Seq<(Seq<char>, Seq<char>)> {
        self.entries@.map_values(|e: (String, String)| (e.0@, e.1@))
    }
}

impl ParameterMap {
    /// The value assigned to `name`, if any.
    pub open spec fn lookup(self, name: Seq<char>) -> Option<Seq<char>> {
        lookup_in(self@, name)
    }

    /// An empty map.
    pub fn new() -> (m: ParameterMap)
        ensures
            m@ == Seq::<(Seq<char>, Seq<char>)>::empty(),
    {
        let m = ParameterMap { entries: Vec::new() };
        assert(m@ =~= Seq::<(Seq<char>, Seq<char>)>::empty());
        m
    }

    /// Index of the last entry named `name`, if any.
    fn find(&self, name: &str) -> (r: Option<usize>)
        ensures
            match r {
                Some(i) => i == last_index_of(self@, name@),
                None => last_index_of(self@, name@) == -1,
            },
    {
        let mut i = self.entries.len();
        assert(self@.take(i as int) =~= self@);
        while i > 0
            invariant
                i <= self.entries@.len(),
                self@.len() == self.entries@.len(),
                forall|j: int| 0 <= j < self@.len() ==> #[trigger] self@[j] == (
                    self.entries@[j].0@,
                    self.entries@[j].1@,
                ),
                last_index_of(self@, name@) == last_index_of(self@.take(i as int), name@),
            decreases i,
        {
            i = i - 1;
            assert(self@.take(i + 1).drop_last() =~= self@.take(i as int));
            if str_eq(self.entries[i].0.as_str(), name) {
                return Some(i);
            }
        }
        assert(self@.take(0) =~= Seq::<(Seq<char>, Seq<char>)>::empty());
        None
    }

    /// The value assigned to `name`, if any.
    pub fn get(&self, name: &str) -> (r: Option<String>)
        ensures
            match r {
                Some(v) => self.lookup(name@) == Some(v@),
                None => self.lookup(name@) is None,
            },
    {
        match self.find(name) {
            Some(i) => {
                proof {
                    lemma_last_index_of_bounds(self@, name@);
                }
                Some(self.entries[i].1.clone())
            },
            None => None,
        }
    }

    /// Assigns `value` to `name`, replacing any earlier value.
    pub fn insert(&mut self, name: String, value: String)
        ensures
            final(self)@ == assign_in(old(self)@, name@, value@),
    {
        proof {
            lemma_last_index_of_bounds(self@, name@);
        }
        match self.find(name.as_str()) {
            Some(i) => {
                let ghost before = self@;
                self.entries.set(i, (name, value));
                assert(self@ =~= before.update(i as int, (name@, value@)));
            },
            None => {
                let ghost before = self@;
                self.entries.push((name, value));
                assert(self@ =~= before.push((name@, value@)));
            },
        }
    }

    /// The names that are assigned, in order.
    pub fn names(&self) -> (r: Vec<String>)
        ensures
            r@.map_values(|s: String| s@) == self@.map_values(
                |e: (Seq<char>, Seq<char>)| e.0,
            ),
    {
        let mut r: Vec<String> = Vec::new();
        let mut i: usize = 0;
        while i < self.entries.len()
            invariant
                i <= self.entries@.len(),
                self@.len() == self.entries@.len(),
                forall|j: int| 0 <= j < self@.len() ==> #[trigger] self@[j] == (
                    self.entries@[j].0@,
                    self.entries@[j].1@,
                ),
                r@.len() == i,
                forall|j: int| 0 <= j < i ==> #[trigger] r@[j]@ == self@[j].0,
            decreases self.entries@.len() - i,
        {
            r.push(self.entries[i].0.clone());
            i = i + 1;
        }
        assert(r@.map_values(|s: String| s@) =~= self@.map_values(
            |e: (Seq<char>, Seq<char>)| e.0,
        ));
        r
    }

    /// Number of assigned names.
    pub fn len(&self) -> (n: usize)
        ensures
            n == self@.len(),
    {
        self.entries.len()
    }
}

} // verus!
