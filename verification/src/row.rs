//! The row of a stream: named values that have not been submitted yet.

use vstd::prelude::*;

verus! {

/// One column of a row, as text: its name and its value.
pub type Pair = (Seq<char>, Seq<char>);

/// The columns that a vector of strings stands for.
pub open spec fn pairs_of(entries: Seq<(String, String)>) -> Seq<Pair> {
    Seq::new(entries.len(), |i: int| (entries[i].0@, entries[i].1@))
}

/// No name occurs twice.
pub open spec fn distinct_keys(pairs: Seq<Pair>) -> bool {
    forall|i: int, j: int| 0 <= i < j < pairs.len() ==> (#[trigger] pairs[i]).0 != (#[trigger] pairs[j]).0
}

/// Some column is named `key`.
pub open spec fn has_key(pairs: Seq<Pair>, key: Seq<char>) -> bool {
    exists|i: int| 0 <= i < pairs.len() && (#[trigger] pairs[i]).0 == key
}

/// The place of a column named `key`.
pub open spec fn index_of_key(pairs: Seq<Pair>, key: Seq<char>) -> int {
    choose|i: int| 0 <= i < pairs.len() && (#[trigger] pairs[i]).0 == key
}

/// The columns after `key` is set to `value`: an existing column keeps its
/// place and takes the new value, a new one goes to the end.
pub open spec fn put(pairs: Seq<Pair>, key: Seq<char>, value: Seq<char>) -> Seq<Pair> {
    if has_key(pairs, key) {
        pairs.update(index_of_key(pairs, key), (key, value))
    } else {
        pairs.push((key, value))
    }
}

/// The columns after each of `adds` is set in turn, first to last.
pub open spec fn put_all(pairs: Seq<Pair>, adds: Seq<Pair>) -> Seq<Pair>
    decreases adds.len(),
{
    if adds.len() == 0 {
        pairs
    } else {
        put(put_all(pairs, adds.drop_last()), adds.last().0, adds.last().1)
    }
}

/// The mapping from name to value that the columns stand for. A later column
/// of the same name would win.
pub open spec fn to_map(pairs: Seq<Pair>) -> Map<Seq<char>, Seq<char>>
    decreases pairs.len(),
{
    if pairs.len() == 0 {
        Map::empty()
    } else {
        to_map(pairs.drop_last()).insert(pairs.last().0, pairs.last().1)
    }
}

/// With distinct names, the mapping has one entry per column and holds each
/// column's value under its name.
pub proof fn lemma_to_map(pairs: Seq<Pair>)
    requires
        distinct_keys(pairs),
    ensures
        to_map(pairs).dom().finite(),
        to_map(pairs).len() == pairs.len(),
        forall|k: Seq<char>| #[trigger] to_map(pairs).contains_key(k) <==> has_key(pairs, k),
        forall|i: int| 0 <= i < pairs.len() ==> to_map(pairs)[(#[trigger] pairs[i]).0] == pairs[i].1,
    decreases pairs.len(),
{
    if pairs.len() > 0 {
        let front = pairs.drop_last();
        let last = pairs.last();
        assert(forall|i: int| 0 <= i < front.len() ==> front[i] == pairs[i]);
        lemma_to_map(front);
        assert(!has_key(front, last.0)) by {
            if has_key(front, last.0) {
                let i: int = index_of_key(front, last.0);
                assert(pairs[i].0 == pairs[pairs.len() - 1].0);
            }
        }
        assert forall|k: Seq<char>| #[trigger] to_map(pairs).contains_key(k) <==> has_key(pairs, k) by {
            if has_key(pairs, k) {
                let i: int = index_of_key(pairs, k);
                if i < front.len() {
                    assert(front[i].0 == k);
                }
            }
            if to_map(pairs).contains_key(k) {
                if k == last.0 {
                    assert(pairs[pairs.len() - 1].0 == k);
                } else {
                    let i: int = index_of_key(front, k);
                    assert(pairs[i].0 == k);
                }
            }
        }
        assert forall|i: int| 0 <= i < pairs.len() implies to_map(pairs)[(#[trigger] pairs[i]).0] == pairs[i].1 by {
            if i < front.len() {
                assert(front[i].0 == pairs[i].0);
                assert(has_key(front, front[i].0));
            }
        }
    }
}

/// Setting a column changes the mapping as an insertion does, and keeps the
/// names distinct.
pub proof fn lemma_put(pairs: Seq<Pair>, key: Seq<char>, value: Seq<char>)
    requires
        distinct_keys(pairs),
    ensures
        distinct_keys(put(pairs, key, value)),
        to_map(put(pairs, key, value)) == to_map(pairs).insert(key, value),
        put(pairs, key, value).len() == if has_key(pairs, key) { pairs.len() } else { pairs.len() + 1 },
{
    let after = put(pairs, key, value);
    if has_key(pairs, key) {
        let at: int = index_of_key(pairs, key);
        assert forall|i: int, j: int| 0 <= i < j < after.len() implies (#[trigger] after[i]).0 != (#[trigger] after[j]).0 by {
            assert(after[i].0 == pairs[i].0);
            assert(after[j].0 == pairs[j].0);
        }
    } else {
        assert forall|i: int, j: int| 0 <= i < j < after.len() implies (#[trigger] after[i]).0 != (#[trigger] after[j]).0 by {
            if j < pairs.len() {
                assert(after[i].0 == pairs[i].0);
                assert(after[j].0 == pairs[j].0);
            } else {
                assert(after[i] == pairs[i]);
            }
        }
    }
    lemma_to_map(pairs);
    lemma_to_map(after);
    let wanted = to_map(pairs).insert(key, value);
    assert forall|k: Seq<char>| to_map(after).contains_key(k) <==> wanted.contains_key(k) by {
        if has_key(after, k) {
            let i: int = index_of_key(after, k);
            if k != key {
                assert(pairs[i].0 == k);
            }
        }
        if has_key(pairs, k) {
            let i: int = index_of_key(pairs, k);
            assert(after[i].0 == k);
        }
        if k == key {
            if has_key(pairs, key) {
                assert(after[index_of_key(pairs, key)].0 == key);
            } else {
                assert(after[after.len() - 1].0 == key);
            }
        }
    }
    assert forall|k: Seq<char>| to_map(after).contains_key(k) implies to_map(after)[k] == wanted[k] by {
        let i: int = index_of_key(after, k);
        assert(to_map(after)[after[i].0] == after[i].1);
        if k != key {
            assert(pairs[i].0 == k);
            assert(to_map(pairs)[pairs[i].0] == pairs[i].1);
        } else if has_key(pairs, key) {
            let at: int = index_of_key(pairs, key);
            if i != at {
                assert(pairs[i].0 == pairs[at].0);
            }
        } else if i < pairs.len() {
            assert(pairs[i].0 == key);
        }
    }
    assert(to_map(after) =~= wanted);
}

/// A row of named values. Names are unique; a name keeps the place at which
/// it was first set, so the row has a fixed order of its own.
#[derive(Debug)]
pub struct Row {
    entries: Vec<(String, String)>,
}

impl View for Row {
    type V = Map<Seq<char>, Seq<char>>;

    /// The row as a mapping from name to value.
    open spec fn view(&self) -> Map<Seq<char>, Seq<char>> {
        to_map(self.pairs())
    }
}

impl Row {
    /// The columns in the row's order.
    pub closed spec fn pairs(&self) -> Seq<Pair> {
        pairs_of(self.entries@)
    }

    /// The row's invariant: no name occurs twice.
    #[verifier::type_invariant]
    pub open spec fn distinct(&self) -> bool {
        distinct_keys(self.pairs())
    }

    /// An empty row.
    pub fn new() -> (row: Row)
        ensures
            row.pairs() == Seq::<Pair>::empty(),
            row@ == Map::<Seq<char>, Seq<char>>::empty(),
    {
        let entries: Vec<(String, String)> = Vec::new();
        assert(pairs_of(entries@) =~= Seq::<Pair>::empty());
        Row { entries }
    }

    /// The number of columns. Their names are distinct, so the row as a
    /// mapping has as many entries.
    pub fn len(&self) -> (n: usize)
        ensures
            n == self.pairs().len(),
            n == self@.len(),
            self@.dom().finite(),
            distinct_keys(self.pairs()),
    {
        proof {
            use_type_invariant(self);
            lemma_to_map(self.pairs());
        }
        self.entries.len()
    }

    /// Whether the row has no column.
    pub fn is_empty(&self) -> (empty: bool)
        ensures
            empty == (self.pairs().len() == 0),
            empty == (self@ == Map::<Seq<char>, Seq<char>>::empty()),
    {
        proof {
            use_type_invariant(self);
            lemma_to_map(self.pairs());
            if self.pairs().len() != 0 {
                assert(has_key(self.pairs(), self.pairs()[0].0));
            }
        }
        self.entries.len() == 0
    }

    /// The place of the column named `key`, if there is one.
    fn position(&self, key: &String) -> (at: Option<usize>)
        ensures
            match at {
                Some(i) => i < self.pairs().len() && self.pairs()[i as int].0 == key@ && has_key(
                    self.pairs(),
                    key@,
                ) && index_of_key(self.pairs(), key@) == i,
                None => !has_key(self.pairs(), key@),
            },
    {
        proof {
            use_type_invariant(self);
        }
        let mut i: usize = 0;
        while i < self.entries.len()
            invariant
                distinct_keys(self.pairs()),
                i <= self.entries@.len(),
                self.pairs().len() == self.entries@.len(),
                forall|j: int| 0 <= j < i ==> (#[trigger] self.pairs()[j]).0 != key@,
            decreases self.entries@.len() - i,
        {
            if self.entries[i].0 == *key {
                proof {
                    let pairs = self.pairs();
                    assert(pairs[i as int].0 == key@);
                    assert(has_key(pairs, key@));
                    let at: int = index_of_key(pairs, key@);
                    assert(0 <= at < pairs.len() && pairs[at].0 == key@);
                    if at < i {
                        assert(pairs[at].0 != pairs[i as int].0);
                    } else if i < at {
                        assert(pairs[i as int].0 != pairs[at].0);
                    }
                }
                return Some(i);
            }
            i += 1;
        }
        None
    }

    /// Sets the column `key` to `value`: an existing column is overwritten in
    /// its place, a new one is added at the end.
    pub fn insert(&mut self, key: String, value: String)
        ensures
            final(self).pairs() == put(old(self).pairs(), key@, value@),
            final(self)@ == old(self)@.insert(key@, value@),
    {
        proof {
            use_type_invariant(&*self);
            lemma_put(self.pairs(), key@, value@);
        }
        let ghost before = self.pairs();
        let ghost after = put(before, key@, value@);
        let at = self.position(&key);
        let mut entries: Vec<(String, String)> = Vec::new();
        assert(pairs_of(entries@) =~= Seq::<Pair>::empty());
        std::mem::swap(&mut entries, &mut self.entries);
        match at {
            Some(i) => {
                entries.set(i, (key, value));
            },
            None => {
                entries.push((key, value));
            },
        }
        assert(pairs_of(entries@) =~= after);
        self.entries = entries;
    }

    /// The value of the column named `key`, if there is one.
    pub fn get(&self, key: &str) -> (value: Option<&String>)
        ensures
            match value {
                Some(v) => self@.contains_key(key@) && v@ == self@[key@],
                None => !self@.contains_key(key@),
            },
    {
        proof {
            use_type_invariant(self);
            lemma_to_map(self.pairs());
        }
        let name = key.to_owned();
        match self.position(&name) {
            Some(i) => {
                assert(self@[self.pairs()[i as int].0] == self.pairs()[i as int].1);
                Some(&self.entries[i].1)
            },
            None => None,
        }
    }

    /// Whether the row has a column named `key`.
    pub fn contains_key(&self, key: &str) -> (found: bool)
        ensures
            found == self@.contains_key(key@),
    {
        proof {
            use_type_invariant(self);
            lemma_to_map(self.pairs());
        }
        let name = key.to_owned();
        self.position(&name).is_some()
    }

    /// Removes every column.
    pub fn clear(&mut self)
        ensures
            final(self).pairs() == Seq::<Pair>::empty(),
            final(self)@ == Map::<Seq<char>, Seq<char>>::empty(),
    {
        let entries: Vec<(String, String)> = Vec::new();
        assert(pairs_of(entries@) =~= Seq::<Pair>::empty());
        self.entries = entries;
    }

    /// The name and the value of the column at place `i`.
    pub fn entry(&self, i: usize) -> (pair: (&str, &str))
        requires
            i < self.pairs().len(),
        ensures
            (pair.0@, pair.1@) == self.pairs()[i as int],
    {
        (self.entries[i].0.as_str(), self.entries[i].1.as_str())
    }
}

impl core::ops::Index<&String> for Row {
    type Output = String;

    /// The value of the column named `key`, which the row must have.
    fn index(&self, key: &String) -> (value: &String)
        ensures
            value@ == self@[key@],
    {
        proof {
            use_type_invariant(self);
            lemma_to_map(self.pairs());
        }
        let at: usize = self.position(key).unwrap();
        assert(self@[self.pairs()[at as int].0] == self.pairs()[at as int].1);
        &self.entries[at].1
    }
}

impl vstd::std_specs::core::IndexSpecImpl<&String> for Row {
    /// Indexing asks for a row that has the column.
    open spec fn index_req(&self, key: &&String) -> bool {
        self@.contains_key(key@)
    }
}

impl Clone for Row {
    /// An independent copy with the same columns in the same order.
    fn clone(&self) -> (copy: Row)
        ensures
            copy.pairs() == self.pairs(),
            copy@ == self@,
    {
        proof {
            use_type_invariant(self);
        }
        let mut entries: Vec<(String, String)> = Vec::new();
        let mut i: usize = 0;
        while i < self.entries.len()
            invariant
                i <= self.entries@.len(),
                entries@.len() == i,
                forall|j: int| 0 <= j < i ==> (#[trigger] entries@[j]).0@ == self.entries@[j].0@ && entries@[j].1@ == self.entries@[j].1@,
            decreases self.entries@.len() - i,
        {
            entries.push((self.entries[i].0.clone(), self.entries[i].1.clone()));
            i += 1;
        }
        assert(pairs_of(entries@) =~= self.pairs());
        Row { entries }
    }
}

} // verus!
