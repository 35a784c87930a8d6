//! A map from server names to values.
//!
//! The API answers with JSON objects keyed by server name. This is the form in
//! which the library holds them: each name once, with the value under it.

use vstd::prelude::*;

verus! {

/// The names under which a list of entries stands, in the list's order.
pub open spec fn entry_names<V>(entries: Seq<(String, V)>) -> Seq<Seq<char>> {
    entries.map_values(|entry: (String, V)| entry.0@)
}

/// What a map without entries holds.
pub open spec fn no_entries<V>() -> Map<Seq<char>, V> {
    Map::empty()
}

/// What is held once the entries have been put into an empty map one after the
/// other: under each name the value of its last entry.
pub open spec fn collected<V>(entries: Seq<(String, V)>) -> Map<Seq<char>, V>
    decreases entries.len(),
{
    if entries.len() == 0 {
        no_entries()
    } else {
        collected(entries.drop_last()).insert(entries.last().0@, entries.last().1)
    }
}

/// A map from server names to values. No name occurs twice in it.
#[derive(Debug)]
pub struct ServerMap<V> {
    entries: Vec<(String, V)>,
}

impl<V> View for ServerMap<V> {
    type V = Map<Seq<char>, V>;

    closed spec fn view(&self) -> Map<Seq<char>, V> {
        let names = entry_names(self.entries@);
        Map::new(
            |name: Seq<char>| names.contains(name),
            |name: Seq<char>| self.entries@[names.index_of(name)].1,
        )
    }
}

impl<V> ServerMap<V> {
    #[verifier::type_invariant]
    spec fn distinct_names(&self) -> bool {
        entry_names(self.entries@).no_duplicates()
    }

    /// Whether `entries` lists what the map holds: each name once, with its
    /// value, and nothing else.
    pub open spec fn listed_by(&self, entries: Seq<(String, V)>) -> bool {
        &&& entry_names(entries).no_duplicates()
        &&& self@.dom() == entry_names(entries).to_set()
        &&& forall|i: int|
            0 <= i < entries.len() ==> self@[#[trigger] entries[i].0@] == entries[i].1
    }

    proof fn lemma_listed(&self)
        requires
            self.distinct_names(),
        ensures
            self.listed_by(self.entries@),
            self@.dom().finite(),
            self@.dom().len() == self.entries@.len(),
    {
        let names = entry_names(self.entries@);
        assert(self@.dom() =~= names.to_set());
        names.unique_seq_to_set();
        assert forall|i: int| 0 <= i < self.entries@.len() implies self@[#[trigger] self.entries@[i].0@]
            == self.entries@[i].1 by {
            assert(names[i] == self.entries@[i].0@);
            assert(names.contains(names[i]));
            assert(names.index_of(names[i]) == i);
        }
    }

    /// A map that holds nothing.
    pub fn new() -> (map: Self)
        ensures
            map@ == no_entries::<V>(),
    {
        let map = ServerMap { entries: Vec::new() };
        proof {
            assert(entry_names(map.entries@) =~= Seq::empty());
            assert(map@ =~= no_entries::<V>());
        }
        map
    }

    /// The map that holds `entries`. Where a name comes more than once, its
    /// last value stays.
    pub fn from_entries(entries: Vec<(String, V)>) -> (map: Self)
        ensures
            map@ == collected(entries@),
    {
        let ghost given = entries@;
        let mut map = ServerMap::new();
        for entry in it: entries.into_iter()
            invariant
                it.seq() == given,
                map@ == collected(given.take(it.index() as int)),
        {
            proof {
                let done = it.index() as int;
                assert(entry == given[done]);
                assert(given.take(done + 1).drop_last() == given.take(done));
                assert(given.take(done + 1).last() == given[done]);
            }
            map.insert(entry.0, entry.1);
        }
        proof {
            assert(given.take(given.len() as int) == given);
        }
        map
    }

    /// The number of names in the map.
    pub fn len(&self) -> (count: usize)
        ensures
            self@.dom().finite(),
            count == self@.dom().len(),
    {
        proof {
            use_type_invariant(self);
            self.lemma_listed();
        }
        self.entries.len()
    }

    /// Whether the map holds nothing.
    pub fn is_empty(&self) -> (empty: bool)
        ensures
            empty == (self@ == no_entries::<V>()),
    {
        proof {
            use_type_invariant(self);
            self.lemma_listed();
            if self.entries@.len() == 0 {
                assert(self@ =~= no_entries::<V>());
            } else {
                assert(self@.dom().len() != 0);
            }
        }
        self.entries.len() == 0
    }

    /// Where `name` stands among the entries, if it does.
    fn position(&self, name: &str) -> (found: Option<usize>)
        ensures
            match found {
                Some(i) => i < self.entries@.len() && self.entries@[i as int].0@ == name@,
                None => !entry_names(self.entries@).contains(name@),
            },
    {
        let wanted = name.to_owned();
        let mut i: usize = 0;
        while i < self.entries.len()
            invariant
                i <= self.entries@.len(),
                wanted@ == name@,
                forall|j: int| 0 <= j < i ==> self.entries@[j].0@ != name@,
            decreases self.entries@.len() - i,
        {
            if self.entries[i].0 == wanted {
                return Some(i);
            }
            i += 1;
        }
        proof {
            let names = entry_names(self.entries@);
            assert forall|j: int| 0 <= j < names.len() implies names[j] != name@ by {
                assert(names[j] == self.entries@[j].0@);
            }
        }
        None
    }

    /// The value that stands under `name`, if the map holds the name.
    pub fn get(&self, name: &str) -> (value: Option<&V>)
        ensures
            match value {
                Some(held) => self@.contains_key(name@) && *held == self@[name@],
                None => !self@.contains_key(name@),
            },
    {
        proof {
            use_type_invariant(self);
            self.lemma_listed();
        }
        match self.position(name) {
            Some(i) => {
                proof {
                    let names = entry_names(self.entries@);
                    assert(names[i as int] == name@);
                    assert(names.contains(name@));
                }
                Some(&self.entries[i].1)
            },
            None => None,
        }
    }

    /// Whether the map holds `name`.
    pub fn contains_name(&self, name: &str) -> (held: bool)
        ensures
            held == self@.contains_key(name@),
    {
        self.get(name).is_some()
    }

    /// Puts `value` under `name`, in place of what stood there.
    pub fn insert(&mut self, name: String, value: V)
        ensures
            final(self)@ == old(self)@.insert(name@, value),
    {
        proof {
            use_type_invariant(&*self);
            self.lemma_listed();
        }
        let ghost before = self.entries@;
        let ghost before_view = self@;
        let ghost key = name@;
        let found = self.position(name.as_str());
        let mut entries: Vec<(String, V)> = Vec::new();
        proof {
            assert(entry_names(entries@) =~= Seq::empty());
        }
        std::mem::swap(&mut self.entries, &mut entries);
        match found {
            Some(i) => {
                entries.set(i, (name, value));
                proof {
                    assert(entry_names(entries@) =~= entry_names(before));
                }
            },
            None => {
                entries.push((name, value));
                proof {
                    let names = entry_names(entries@);
                    assert(names =~= entry_names(before).push(key));
                    assert forall|a: int, b: int|
                        0 <= a < names.len() && 0 <= b < names.len() && a != b implies names[a]
                        != names[b] by {
                        if a < before.len() {
                            assert(entry_names(before).contains(names[a]));
                        }
                        if b < before.len() {
                            assert(entry_names(before).contains(names[b]));
                        }
                    }
                }
            },
        }
        let ghost after = entries@;
        std::mem::swap(&mut self.entries, &mut entries);
        proof {
            let names = entry_names(after);
            let names_before = entry_names(before);
            if found is Some {
                let i = found->0 as int;
                assert(names_before[i] == key);
                assert(names_before.index_of(key) == i);
                assert forall|other: Seq<char>|
                    names_before.contains(other) && other != key implies after[names_before.index_of(
                    other,
                )].1 == before[names_before.index_of(other)].1 by {
                    assert(names_before[names_before.index_of(other)] == other);
                }
            } else {
                assert(names[before.len() as int] == key);
                assert(names.index_of(key) == before.len());
                assert forall|other: Seq<char>| names_before.contains(other) implies names.contains(
                    other,
                ) && names.index_of(other) == names_before.index_of(other) by {
                    let at = names_before.index_of(other);
                    assert(names_before[at] == other);
                    assert(names[at] == other);
                }
                assert forall|other: Seq<char>| names.contains(other) && other != key implies names_before.contains(
                    other,
                ) by {
                    let at = names.index_of(other);
                    assert(names[at] == other);
                    assert(names_before[at] == other);
                }
            }
            assert(self@ =~= before_view.insert(key, value));
        }
    }

    /// The entries of the map, each name once, in no order that a caller may
    /// count on.
    pub fn entries(&self) -> (entries: &Vec<(String, V)>)
        ensures
            self.listed_by(entries@),
    {
        proof {
            use_type_invariant(self);
            self.lemma_listed();
        }
        &self.entries
    }

    /// Gives up the map for its entries, each name once, in no order that a
    /// caller may count on.
    pub fn into_entries(self) -> (entries: Vec<(String, V)>)
        ensures
            self.listed_by(entries@),
    {
        proof {
            use_type_invariant(&self);
            self.lemma_listed();
        }
        self.entries
    }
}

} // verus!
