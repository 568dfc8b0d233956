use vstd::prelude::*;

verus! {

/// A table of values looked up by name, where each name occurs at most once.
///
/// std's `HashMap` is not used for this: vstd's contracts for `HashMap::insert`, `get` and
/// `contains_key` hold only under `vstd::std_specs::hash::obeys_key_model::<K>()`, which vstd
/// establishes for `bool`, the integer types and boxes of them. For `String` keys that condition
/// could only be assumed, so nothing could be proved of what a map keyed by names holds.
///
/// Entries are kept in the order in which their names were first stored; storing under a
/// name that is already present replaces the value in place.
pub struct NameTable<V> {
    entries: Vec<(String, V)>,
}

/// Whether no name occurs twice in `entries`.
pub open spec fn names_unique<V>(entries: Seq<(String, V)>) -> bool {
    forall|i: int, j: int|
        0 <= i < entries.len() && 0 <= j < entries.len() && i != j ==> entries[i].0@
            != entries[j].0@
}

/// Whether `entries` holds an entry named `name`.
pub open spec fn names_contain<V>(entries: Seq<(String, V)>, name: Seq<char>) -> bool {
    exists|i: int| 0 <= i < entries.len() && #[trigger] entries[i].0@ == name
}

/// The position of the entry named `name` in `entries` (meaningful when there is one).
pub open spec fn position_of<V>(entries: Seq<(String, V)>, name: Seq<char>) -> int {
    choose|i: int| 0 <= i < entries.len() && #[trigger] entries[i].0@ == name
}

/// The map from names to values that `entries` describes.
pub open spec fn entries_map<V>(entries: Seq<(String, V)>) -> Map<Seq<char>, V> {
    Map::new(
        |name: Seq<char>| names_contain(entries, name),
        |name: Seq<char>| entries[position_of(entries, name)].1,
    )
}

/// In an entry sequence without repeated names, the entry at `i` is the one the map reports
/// for its name.
pub proof fn lemma_entry_in_map<V>(entries: Seq<(String, V)>, i: int)
    requires
        names_unique(entries),
        0 <= i < entries.len(),
    ensures
        entries_map(entries).contains_key(entries[i].0@),
        entries_map(entries)[entries[i].0@] == entries[i].1,
        position_of(entries, entries[i].0@) == i,
{
    let name = entries[i].0@;
    assert(names_contain(entries, name));
    let p = position_of(entries, name);
    assert(entries[p].0@ == name);
}

impl<V> View for NameTable<V> {
    type V = Map<Seq<char>, V>;

    closed spec fn view(&self) -> Map<Seq<char>, V> {
        entries_map(self.entries@)
    }
}

impl<V> NameTable<V> {
    #[verifier::type_invariant]
    closed spec fn inv(self) -> bool {
        names_unique(self.entries@)
    }

    /// What `get(name)` gives back: the value stored under `name`, or `None`.
    pub open spec fn lookup(&self, name: Seq<char>) -> Option<V> {
        if self@.contains_key(name) {
            Some(self@[name])
        } else {
            None
        }
    }

    /// An empty table.
    pub fn new() -> (table: Self)
        ensures
            table@ == Map::<Seq<char>, V>::empty(),
    {
        let table = NameTable { entries: Vec::new() };
        assert(table@ =~= Map::<Seq<char>, V>::empty());
        table
    }

    /// The position of the entry named `name`, if there is one.
    fn position(&self, name: &String) -> (pos: Option<usize>)
        ensures
            match pos {
                Some(i) => {
                    &&& i < self.entries@.len()
                    &&& self.entries@[i as int].0@ == name@
                    &&& self@.contains_key(name@)
                    &&& self@[name@] == self.entries@[i as int].1
                },
                None => !self@.contains_key(name@),
            },
    {
        proof {
            use_type_invariant(self);
        }
        let mut i: usize = 0;
        while i < self.entries.len()
            invariant
                i <= self.entries@.len(),
                names_unique(self.entries@),
                forall|j: int| 0 <= j < i ==> self.entries@[j].0@ != name@,
            decreases self.entries@.len() - i,
        {
            if self.entries[i].0 == *name {
                proof {
                    lemma_entry_in_map(self.entries@, i as int);
                }
                return Some(i);
            }
            i = i + 1;
        }
        assert(!names_contain(self.entries@, name@));
        None
    }

    /// Whether a value is stored under `name`.
    pub fn contains(&self, name: &str) -> (found: bool)
        ensures
            found == self.lookup(name@) is Some,
    {
        let key = name.to_owned();
        self.position(&key).is_some()
    }

    /// The value stored under `name`, if any.
    pub fn get(&self, name: &str) -> (value: Option<&V>)
        ensures
            match value {
                Some(v) => self.lookup(name@) == Some(*v),
                None => self.lookup(name@) is None,
            },
    {
        let key = name.to_owned();
        match self.position(&key) {
            Some(i) => Some(&self.entries[i].1),
            None => None,
        }
    }

    /// Stores `value` under `name`, replacing the value stored there before, if any.
    pub fn insert(&mut self, name: String, value: V)
        ensures
            final(self)@ == old(self)@.insert(name@, value),
    {
        proof {
            use_type_invariant(&*self);
        }
        let pos = self.position(&name);
        let mut entries = Vec::new();
        std::mem::swap(&mut entries, &mut self.entries);
        let ghost old_entries = entries@;
        match pos {
            Some(i) => {
                proof {
                    lemma_replace_entry(old_entries, i as int, (name, value));
                }
                entries.set(i, (name, value));
            },
            None => {
                proof {
                    lemma_append_entry(old_entries, (name, value));
                }
                entries.push((name, value));
            },
        }
        self.entries = entries;
    }

    /// Takes out the value stored under `name`, if any, leaving no entry of that name.
    pub fn remove(&mut self, name: &str) -> (removed: Option<V>)
        ensures
            removed == old(self).lookup(name@),
            final(self)@ == old(self)@.remove(name@),
    {
        proof {
            use_type_invariant(&*self);
        }
        let key = name.to_owned();
        match self.position(&key) {
            None => {
                assert(self@.remove(name@) =~= self@);
                None
            },
            Some(i) => {
                let mut entries = Vec::new();
                std::mem::swap(&mut entries, &mut self.entries);
                proof {
                    lemma_remove_entry(entries@, i as int);
                }
                let (_, value) = entries.remove(i);
                self.entries = entries;
                Some(value)
            },
        }
    }
}

/// Removing the entry at `i` keeps names unique and unbinds that entry's name.
proof fn lemma_remove_entry<V>(old_entries: Seq<(String, V)>, i: int)
    requires
        names_unique(old_entries),
        0 <= i < old_entries.len(),
    ensures
        names_unique(old_entries.remove(i)),
        entries_map(old_entries.remove(i)) == entries_map(old_entries).remove(old_entries[i].0@),
{
    let new_entries = old_entries.remove(i);
    let key = old_entries[i].0@;
    let old_index = |j: int| if j < i { j } else { j + 1 };
    assert forall|j: int| 0 <= j < new_entries.len() implies #[trigger] new_entries[j] == old_entries[old_index(j)] by {}
    assert(names_unique(new_entries)) by {
        assert forall|a: int, b: int|
            0 <= a < new_entries.len() && 0 <= b < new_entries.len() && a != b implies new_entries[a].0@
                != new_entries[b].0@ by {
            assert(new_entries[a] == old_entries[old_index(a)]);
            assert(new_entries[b] == old_entries[old_index(b)]);
        }
    }
    let old_map = entries_map(old_entries);
    let new_map = entries_map(new_entries);
    lemma_entry_in_map(old_entries, i);
    assert forall|k: Seq<char>| #[trigger] new_map.contains_key(k) == (k != key && old_map.contains_key(k)) by {
        if names_contain(new_entries, k) {
            let p = position_of(new_entries, k);
            assert(new_entries[p] == old_entries[old_index(p)]);
            assert(old_entries[old_index(p)].0@ == k);
            assert(old_map.contains_key(k));
            assert(old_index(p) != i);
        } else if k != key && old_map.contains_key(k) {
            let p = position_of(old_entries, k);
            assert(p != i);
            let q = if p < i { p } else { p - 1 };
            assert(new_entries[q] == old_entries[p]);
            assert(new_entries[q].0@ == k);
        }
    }
    assert forall|k: Seq<char>| new_map.contains_key(k) implies #[trigger] new_map[k] == old_map[k] by {
        let p = position_of(new_entries, k);
        lemma_entry_in_map(new_entries, p);
        assert(new_entries[p] == old_entries[old_index(p)]);
        lemma_entry_in_map(old_entries, old_index(p));
    }
    assert(new_map =~= old_map.remove(key));
}

/// Replacing the entry at `i` by one of the same name keeps names unique and rebinds that name.
proof fn lemma_replace_entry<V>(old_entries: Seq<(String, V)>, i: int, entry: (String, V))
    requires
        names_unique(old_entries),
        0 <= i < old_entries.len(),
        old_entries[i].0@ == entry.0@,
    ensures
        names_unique(old_entries.update(i, entry)),
        entries_map(old_entries.update(i, entry)) == entries_map(old_entries).insert(
            entry.0@,
            entry.1,
        ),
{
    let new_entries = old_entries.update(i, entry);
    let key = entry.0@;
    assert(names_unique(new_entries)) by {
        assert forall|a: int, b: int|
            0 <= a < new_entries.len() && 0 <= b < new_entries.len() && a != b implies new_entries[a].0@
                != new_entries[b].0@ by {
            assert(new_entries[a].0@ == old_entries[a].0@);
            assert(new_entries[b].0@ == old_entries[b].0@);
        }
    }
    let old_map = entries_map(old_entries);
    let new_map = entries_map(new_entries);
    assert forall|k: Seq<char>| #[trigger] new_map.contains_key(k) == (k == key || old_map.contains_key(k)) by {
        if k == key {
            lemma_entry_in_map(new_entries, i);
        } else if old_map.contains_key(k) {
            let p = position_of(old_entries, k);
            assert(new_entries[p].0@ == k);
        } else if names_contain(new_entries, k) {
            let p = position_of(new_entries, k);
            assert(old_entries[p].0@ == k);
        }
    }
    assert forall|k: Seq<char>| k != key && old_map.contains_key(k) implies #[trigger] new_map[k]
        == old_map[k] by {
        let p = position_of(old_entries, k);
        lemma_entry_in_map(old_entries, p);
        assert(new_entries[p] == old_entries[p]);
        lemma_entry_in_map(new_entries, p);
    }
    lemma_entry_in_map(new_entries, i);
    assert(new_map =~= old_map.insert(key, entry.1));
}

/// Appending an entry under a new name keeps names unique and binds that name.
proof fn lemma_append_entry<V>(old_entries: Seq<(String, V)>, entry: (String, V))
    requires
        names_unique(old_entries),
        !entries_map(old_entries).contains_key(entry.0@),
    ensures
        names_unique(old_entries.push(entry)),
        entries_map(old_entries.push(entry)) == entries_map(old_entries).insert(entry.0@, entry.1),
{
    let new_entries = old_entries.push(entry);
    let key = entry.0@;
    let n = old_entries.len() as int;
    assert(names_unique(new_entries)) by {
        assert forall|j: int| 0 <= j < n implies new_entries[j].0@ != key by {
            assert(new_entries[j] == old_entries[j]);
            if old_entries[j].0@ == key {
                assert(names_contain(old_entries, key));
            }
        }
        assert forall|a: int, b: int|
            0 <= a < new_entries.len() && 0 <= b < new_entries.len() && a != b implies new_entries[a].0@
                != new_entries[b].0@ by {
            if a < n && b < n {
                assert(new_entries[a] == old_entries[a]);
                assert(new_entries[b] == old_entries[b]);
            }
        }
    }
    let old_map = entries_map(old_entries);
    let new_map = entries_map(new_entries);
    assert forall|k: Seq<char>| #[trigger] new_map.contains_key(k) == (k == key || old_map.contains_key(k)) by {
        if k == key {
            lemma_entry_in_map(new_entries, n);
        } else if old_map.contains_key(k) {
            let p = position_of(old_entries, k);
            assert(new_entries[p].0@ == k);
        } else if names_contain(new_entries, k) {
            let p = position_of(new_entries, k);
            assert(p != n);
            assert(old_entries[p].0@ == k);
        }
    }
    assert forall|k: Seq<char>| k != key && old_map.contains_key(k) implies #[trigger] new_map[k]
        == old_map[k] by {
        let p = position_of(old_entries, k);
        lemma_entry_in_map(old_entries, p);
        assert(new_entries[p] == old_entries[p]);
        lemma_entry_in_map(new_entries, p);
    }
    lemma_entry_in_map(new_entries, n);
    assert(new_map =~= old_map.insert(key, entry.1));
}


/// A `get(name)` after `insert(name, value)` gives back `value`; a `get` of any other name gives
/// back what it gave before the insert.
pub proof fn law_lookup_after_insert<V>(before: NameTable<V>, after: NameTable<V>, name: Seq<char>, value: V, other: Seq<char>)
    requires
        after@ == before@.insert(name, value),
        other != name,
    ensures
        after.lookup(name) == Some(value),
        after.lookup(other) == before.lookup(other),
{
}

/// Two inserts under the same name leave the table as the second one alone would: `get`
/// gives back the second value.
pub proof fn law_second_insert_wins<V>(start: NameTable<V>, middle: NameTable<V>, end: NameTable<V>, name: Seq<char>, first: V, second: V)
    requires
        middle@ == start@.insert(name, first),
        end@ == middle@.insert(name, second),
    ensures
        end@ == start@.insert(name, second),
        end.lookup(name) == Some(second),
{
    assert(end@ =~= start@.insert(name, second));
}

/// `remove(name)` after `insert(name, value)` hands back `value` and leaves the table as
/// `remove(name)` on the first table would: `get(name)` gives nothing, every other name gives
/// back what it gave before the insert.
pub proof fn law_remove_undoes_insert<V>(start: NameTable<V>, middle: NameTable<V>, end: NameTable<V>, name: Seq<char>, value: V, other: Seq<char>)
    requires
        middle@ == start@.insert(name, value),
        end@ == middle@.remove(name),
        other != name,
    ensures
        middle.lookup(name) == Some(value),
        end@ == start@.remove(name),
        end.lookup(name) is None,
        end.lookup(other) == start.lookup(other),
{
    assert(end@ =~= start@.remove(name));
}

} // verus!
