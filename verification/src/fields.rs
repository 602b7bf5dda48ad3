//! An ordered map from names to values, both text: the shape of header
//! blocks, query strings and path parameters. A name occurs at most once; a
//! second insertion under the same name replaces the value and keeps the
//! place of the first.

use crate::text::str_eq;
use vstd::prelude::*;

verus! {

/// One name with its value.
pub type Entry = (Seq<char>, Seq<char>);

/// The index of the first entry at or after `from` whose name is `name`.
pub open spec fn position_from(entries: Seq<Entry>, name: Seq<char>, from: int) -> Option<int>
    decreases entries.len() - from,
{
    if from < 0 || from >= entries.len() {
        None
    } else if entries[from].0 == name {
        Some(from)
    } else {
        position_from(entries, name, from + 1)
    }
}

/// The index of the first entry whose name is `name`.
pub open spec fn position(entries: Seq<Entry>, name: Seq<char>) -> Option<int> {
    position_from(entries, name, 0)
}

/// The value held under `name`.
pub open spec fn lookup(entries: Seq<Entry>, name: Seq<char>) -> Option<Seq<char>> {
    match position(entries, name) {
        Some(i) => Some(entries[i].1),
        None => None,
    }
}

/// `entries` with `value` under `name`: in the place of the entry that had the
/// name, or at the end where none had it.
pub open spec fn put(entries: Seq<Entry>, name: Seq<char>, value: Seq<char>) -> Seq<Entry> {
    match position(entries, name) {
        Some(i) => entries.update(i, (name, value)),
        None => entries.push((name, value)),
    }
}

/// No name occurs twice.
pub open spec fn distinct(entries: Seq<Entry>) -> bool {
    forall|i: int, j: int|
        0 <= i < j < entries.len() ==> (#[trigger] entries[i]).0 != (#[trigger] entries[j]).0
}

/// The entries as a map from name to value.
pub open spec fn as_map(entries: Seq<Entry>) -> Map<Seq<char>, Seq<char>> {
    Map::new(
        |name: Seq<char>| lookup(entries, name) is Some,
        |name: Seq<char>| lookup(entries, name)->Some_0,
    )
}

/// `position_from` finds the first entry with the name, and only that.
pub proof fn lemma_position_from(entries: Seq<Entry>, name: Seq<char>, from: int)
    requires
        0 <= from,
    ensures
        match position_from(entries, name, from) {
            Some(i) => from <= i < entries.len() && entries[i].0 == name && forall|j: int|
                from <= j < i ==> (#[trigger] entries[j]).0 != name,
            None => forall|j: int| from <= j < entries.len() ==> (#[trigger] entries[j]).0 != name,
        },
    decreases entries.len() - from,
{
    if from < entries.len() && entries[from].0 != name {
        lemma_position_from(entries, name, from + 1);
    }
}

/// Where `entries[i]` is the first entry named `name`, `position` is `i`.
pub proof fn lemma_position_is(entries: Seq<Entry>, name: Seq<char>, i: int)
    requires
        0 <= i < entries.len(),
        entries[i].0 == name,
        forall|j: int| 0 <= j < i ==> (#[trigger] entries[j]).0 != name,
    ensures
        position(entries, name) == Some(i),
{
    lemma_position_from(entries, name, 0);
}

/// After `put`, the name gives the new value and every other name what it
/// gave before; distinct names stay distinct.
pub proof fn lemma_put(entries: Seq<Entry>, name: Seq<char>, value: Seq<char>)
    ensures
        lookup(put(entries, name, value), name) == Some(value),
        forall|other: Seq<char>|
            other != name ==> lookup(put(entries, name, value), other) == lookup(entries, other),
        distinct(entries) ==> distinct(put(entries, name, value)),
        as_map(put(entries, name, value)) == as_map(entries).insert(name, value),
{
    let after = put(entries, name, value);
    lemma_position_from(entries, name, 0);
    match position(entries, name) {
        Some(i) => {
            lemma_position_is(after, name, i);
        },
        None => {
            lemma_position_is(after, name, entries.len() as int);
        },
    }
    assert forall|other: Seq<char>| other != name implies lookup(after, other) == lookup(
        entries,
        other,
    ) by {
        lemma_position_from(entries, other, 0);
        lemma_position_from(after, other, 0);
        match position(entries, other) {
            Some(k) => {
                lemma_position_is(after, other, k);
            },
            None => {},
        }
    }
    if distinct(entries) {
        assert forall|i: int, j: int| 0 <= i < j < after.len() implies (#[trigger] after[i]).0 != (
        #[trigger] after[j]).0 by {}
    }
}

/// An ordered map from names to values.
#[derive(Clone, Debug)]
pub struct Fields {
    entries: Vec<(String, String)>,
}

impl View for Fields {
    type V = Seq<Entry>;

    closed spec fn view(&self) -> Seq<Entry> {
        Seq::new(self.entries@.len(), |i: int| (self.entries@[i].0@, self.entries@[i].1@))
    }
}

impl Fields {
    /// No name occurs twice. `new` establishes this and `insert` keeps it.
    pub open spec fn wf(&self) -> bool {
        distinct(self@)
    }

    /// The entries as a map from name to value.
    pub open spec fn map(&self) -> Map<Seq<char>, Seq<char>> {
        as_map(self@)
    }

    /// An empty map.
    pub fn new() -> (r: Self)
        ensures
            r@ == Seq::<Entry>::empty(),
            r.wf(),
    {
        let r = Fields { entries: Vec::new() };
        r
    }

    /// The number of entries.
    pub fn len(&self) -> (n: usize)
        ensures
            n == self@.len(),
    {
        self.entries.len()
    }

    /// The name of entry `i`.
    pub fn name(&self, i: usize) -> (s: &String)
        requires
            i < self@.len(),
        ensures
            s@ == self@[i as int].0,
    {
        &self.entries[i].0
    }

    /// The value of entry `i`.
    pub fn value(&self, i: usize) -> (s: &String)
        requires
            i < self@.len(),
        ensures
            s@ == self@[i as int].1,
    {
        &self.entries[i].1
    }

    fn index_of(&self, name: &str) -> (r: Option<usize>)
        ensures
            match r {
                Some(i) => position(self@, name@) == Some(i as int) && i < self@.len(),
                None => position(self@, name@) is None,
            },
    {
        let mut i: usize = 0;
        while i < self.entries.len()
            invariant
                i <= self.entries@.len(),
                self@.len() == self.entries@.len(),
                position(self@, name@) == position_from(self@, name@, i as int),
            decreases self.entries@.len() - i,
        {
            if str_eq(self.entries[i].0.as_str(), name) {
                return Some(i);
            }
            i += 1;
        }
        None
    }

    /// The value held under `name`.
    pub fn get(&self, name: &str) -> (r: Option<&String>)
        ensures
            match r {
                Some(v) => lookup(self@, name@) == Some(v@),
                None => lookup(self@, name@) is None,
            },
    {
        match self.index_of(name) {
            Some(i) => Some(&self.entries[i].1),
            None => None,
        }
    }

    /// Whether a value is held under `name`.
    pub fn contains_key(&self, name: &str) -> (r: bool)
        ensures
            r == lookup(self@, name@) is Some,
    {
        self.index_of(name).is_some()
    }

    /// Puts `value` under `name`, in place of the value that was there.
    pub fn insert(&mut self, name: String, value: String)
        ensures
            final(self)@ == put(old(self)@, name@, value@),
            old(self).wf() ==> final(self).wf(),
    {
        proof {
            lemma_put(self@, name@, value@);
        }
        match self.index_of(name.as_str()) {
            Some(i) => {
                self.entries.set(i, (name, value));
            },
            None => {
                self.entries.push((name, value));
            },
        }
        assert(self@ =~= put(old(self)@, name@, value@));
    }
}

} // verus!
