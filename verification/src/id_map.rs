use vstd::prelude::*;

verus! {

/// A map from string identifiers to values.
///
/// The entries are kept in a vector in which no identifier occurs twice. Callers reason about the
/// map through its view.
#[derive(Debug)]
pub struct IdMap<V> {
    entries: Vec<(String, V)>,
}

/// No identifier occurs twice.
spec fn distinct_ids<V>(entries: Seq<(String, V)>) -> bool {
    forall|i: int, j: int|
        0 <= i < j < entries.len() ==> (#[trigger] entries[i]).0@ != (#[trigger] entries[j]).0@
}

/// The entry at position `i` carries the identifier `id`.
spec fn has_id_at<V>(entries: Seq<(String, V)>, id: Seq<char>, i: int) -> bool {
    0 <= i < entries.len() && entries[i].0@ == id
}

/// The map that a sequence of entries stands for.
spec fn as_map<V>(entries: Seq<(String, V)>) -> Map<Seq<char>, V> {
    Map::new(
        |id: Seq<char>| exists|i: int| has_id_at(entries, id, i),
        |id: Seq<char>| entries[choose|i: int| has_id_at(entries, id, i)].1,
    )
}

/// In a sequence of entries without repetition, the map holds every entry.
proof fn lemma_entry_in_map<V>(entries: Seq<(String, V)>, i: int)
    requires
        distinct_ids(entries),
        0 <= i < entries.len(),
    ensures
        as_map(entries).contains_key(entries[i].0@),
        as_map(entries)[entries[i].0@] == entries[i].1,
{
    let id = entries[i].0@;
    assert(has_id_at(entries, id, i));
    let j = choose|j: int| has_id_at(entries, id, j);
    assert(has_id_at(entries, id, j));
    assert(i == j) by {
        if i < j {
            assert(entries[i].0@ != entries[j].0@);
        } else if j < i {
            assert(entries[j].0@ != entries[i].0@);
        }
    }
}

impl<V> View for IdMap<V> {
    type V = Map<Seq<char>, V>;

    closed spec fn view(&self) -> Map<Seq<char>, V> {
        as_map(self.entries@)
    }
}

impl<V> IdMap<V> {
    #[verifier::type_invariant]
    spec fn well_formed(self) -> bool {
        distinct_ids(self.entries@)
    }

    /// The identifiers, in the order in which `entry` hands the entries out.
    pub closed spec fn ids(self) -> Seq<Seq<char>> {
        self.entries@.map_values(|entry: (String, V)| entry.0@)
    }

    /// The empty map.
    pub fn new() -> (map: Self)
        ensures
            map@ == Map::<Seq<char>, V>::empty(),
    {
        let map = IdMap { entries: Vec::new() };
        assert(map@ =~= Map::empty());
        map
    }

    /// The number of entries.
    pub fn len(&self) -> (len: usize)
        ensures
            len == self.ids().len(),
            self.ids().no_duplicates(),
            forall|id: Seq<char>| #[trigger] self.ids().contains(id) <==> self@.contains_key(id),
    {
        proof {
            use_type_invariant(self);
            assert forall|id: Seq<char>| #[trigger]
                self.ids().contains(id) <==> self@.contains_key(id) by {
                if self.ids().contains(id) {
                    let i = self.ids().index_of(id);
                    assert(has_id_at(self.entries@, id, i));
                }
                if self@.contains_key(id) {
                    let i = choose|i: int| has_id_at(self.entries@, id, i);
                    assert(self.ids()[i] == id);
                }
            }
        }
        self.entries.len()
    }

    /// The entry at position `i`.
    pub fn entry(&self, i: usize) -> (entry: (&String, &V))
        requires
            i < self.ids().len(),
        ensures
            entry.0@ == self.ids()[i as int],
            self@.contains_key(entry.0@),
            *entry.1 == self@[entry.0@],
    {
        proof {
            use_type_invariant(self);
            lemma_entry_in_map(self.entries@, i as int);
        }
        let entry = &self.entries[i];
        (&entry.0, &entry.1)
    }

    /// The position of the entry for `id`, if there is one.
    fn position(&self, id: &String) -> (position: Option<usize>)
        ensures
            match position {
                Some(i) => has_id_at(self.entries@, id@, i as int),
                None => !self@.contains_key(id@),
            },
    {
        let mut i: usize = 0;
        while i < self.entries.len()
            invariant
                0 <= i <= self.entries.len(),
                forall|j: int| 0 <= j < i ==> !#[trigger] has_id_at(self.entries@, id@, j),
            decreases self.entries.len() - i,
        {
            if self.entries[i].0 == *id {
                return Some(i);
            }
            i += 1;
        }
        None
    }

    /// Whether there is an entry for `id`.
    pub fn contains_key(&self, id: &String) -> (found: bool)
        ensures
            found == self@.contains_key(id@),
    {
        self.position(id).is_some()
    }

    /// The value stored for `id`.
    pub fn get(&self, id: &String) -> (value: Option<&V>)
        ensures
            match value {
                Some(v) => self@.contains_key(id@) && *v == self@[id@],
                None => !self@.contains_key(id@),
            },
    {
        match self.position(id) {
            Some(i) => {
                proof {
                    use_type_invariant(self);
                    lemma_entry_in_map(self.entries@, i as int);
                }
                Some(&self.entries[i].1)
            },
            None => None,
        }
    }

    /// Stores `value` for `id`, in place of what was stored for it before.
    pub fn insert(&mut self, id: String, value: V)
        ensures
            final(self)@ == old(self)@.insert(id@, value),
    {
        proof {
            use_type_invariant(&*self);
        }
        let ghost before = self.entries@;
        let ghost key = id@;
        let position = self.position(&id);
        let mut entries: Vec<(String, V)> = Vec::new();
        std::mem::swap(&mut entries, &mut self.entries);
        match position {
            Some(i) => {
                entries.set(i, (id, value));
            },
            None => {
                entries.push((id, value));
            },
        }
        proof {
            lemma_insert(before, key, value, entries@);
        }
        self.entries = entries;
    }

    /// Removes the entry for `id` and returns what was stored for it.
    pub fn remove(&mut self, id: &String) -> (value: Option<V>)
        ensures
            final(self)@ == old(self)@.remove(id@),
            match value {
                Some(v) => old(self)@.contains_key(id@) && v == old(self)@[id@],
                None => !old(self)@.contains_key(id@),
            },
    {
        proof {
            use_type_invariant(&*self);
        }
        let ghost before = self.entries@;
        match self.position(id) {
            Some(i) => {
                let mut entries: Vec<(String, V)> = Vec::new();
                std::mem::swap(&mut entries, &mut self.entries);
                let removed = entries.remove(i);
                proof {
                    lemma_entry_in_map(before, i as int);
                    lemma_remove(before, i as int);
                }
                self.entries = entries;
                Some(removed.1)
            },
            None => {
                assert(self@.remove(id@) =~= self@);
                None
            },
        }
    }
}

impl<V: Clone> Clone for IdMap<V> {
    fn clone(&self) -> (copy: Self)
        ensures
            forall|id: Seq<char>| #[trigger] copy@.contains_key(id) <==> self@.contains_key(id),
            forall|id: Seq<char>| #[trigger]
                copy@.contains_key(id) ==> cloned::<V>(self@[id], copy@[id]),
    {
        proof {
            use_type_invariant(self);
        }
        let mut entries: Vec<(String, V)> = Vec::new();
        let mut i: usize = 0;
        while i < self.entries.len()
            invariant
                0 <= i <= self.entries.len(),
                entries.len() == i,
                forall|j: int|
                    0 <= j < i ==> (#[trigger] entries@[j]).0@ == self.entries@[j].0@ && cloned::<V>(
                        self.entries@[j].1,
                        entries@[j].1,
                    ),
            decreases self.entries.len() - i,
        {
            entries.push((self.entries[i].0.clone(), self.entries[i].1.clone()));
            i += 1;
        }
        proof {
            lemma_clone(self.entries@, entries@);
        }
        IdMap { entries }
    }
}

/// Cloning every entry clones the map.
proof fn lemma_clone<V: Clone>(before: Seq<(String, V)>, after: Seq<(String, V)>)
    requires
        distinct_ids(before),
        after.len() == before.len(),
        forall|j: int|
            0 <= j < before.len() ==> (#[trigger] after[j]).0@ == before[j].0@ && cloned::<V>(
                before[j].1,
                after[j].1,
            ),
    ensures
        distinct_ids(after),
        forall|id: Seq<char>| #[trigger]
            as_map(after).contains_key(id) <==> as_map(before).contains_key(id),
        forall|id: Seq<char>| #[trigger]
            as_map(after).contains_key(id) ==> cloned::<V>(as_map(before)[id], as_map(after)[id]),
{
    assert(distinct_ids(after)) by {
        assert forall|i: int, j: int| 0 <= i < j < after.len() implies (#[trigger] after[i]).0@
            != (#[trigger] after[j]).0@ by {
            assert(before[i].0@ != before[j].0@);
        }
    }
    assert forall|id: Seq<char>| #[trigger]
        as_map(after).contains_key(id) <==> as_map(before).contains_key(id) by {
        if as_map(after).contains_key(id) {
            let i = choose|i: int| has_id_at(after, id, i);
            assert(has_id_at(before, id, i));
        }
        if as_map(before).contains_key(id) {
            let i = choose|i: int| has_id_at(before, id, i);
            assert(has_id_at(after, id, i));
        }
    }
    assert forall|id: Seq<char>| #[trigger] as_map(after).contains_key(id) implies cloned::<V>(
        as_map(before)[id],
        as_map(after)[id],
    ) by {
        let i = choose|i: int| has_id_at(after, id, i);
        assert(has_id_at(after, id, i));
        lemma_entry_in_map(after, i);
        lemma_entry_in_map(before, i);
    }
}

/// Replacing the entry for `id`, or appending one where there is none, inserts into the map.
proof fn lemma_insert<V>(
    before: Seq<(String, V)>,
    id: Seq<char>,
    value: V,
    after: Seq<(String, V)>,
)
    requires
        distinct_ids(before),
        ({
            ||| exists|i: int, entry: (String, V)|
                #![trigger before.update(i, entry)]
                has_id_at(before, id, i) && entry.0@ == id && entry.1 == value && after
                    == before.update(i, entry)
            ||| (forall|i: int| !#[trigger] has_id_at(before, id, i)) && exists|entry: (String, V)|
                #![trigger before.push(entry)]
                entry.0@ == id && entry.1 == value && after == before.push(entry)
        }),
    ensures
        distinct_ids(after),
        as_map(after) == as_map(before).insert(id, value),
{
    assert(forall|i: int| 0 <= i < before.len() && before[i].0@ == id ==> has_id_at(before, id, i));
    assert(forall|i: int| 0 <= i < before.len() ==> after[i].0@ == (#[trigger] before[i]).0@);
    assert(distinct_ids(after)) by {
        assert forall|i: int, j: int| 0 <= i < j < after.len() implies (#[trigger] after[i]).0@
            != (#[trigger] after[j]).0@ by {
            if j < before.len() {
                assert(before[i].0@ != before[j].0@);
            } else {
                assert(!has_id_at(before, id, i));
            }
        }
    }
    assert forall|other: Seq<char>|
        as_map(after).contains_key(other) <==> as_map(before).insert(id, value).contains_key(
            other,
        ) by {
        if as_map(after).contains_key(other) {
            let i = choose|i: int| has_id_at(after, other, i);
            if i < before.len() {
                assert(has_id_at(before, other, i));
            }
        }
        if as_map(before).contains_key(other) {
            let i = choose|i: int| has_id_at(before, other, i);
            assert(has_id_at(after, other, i));
        }
        if other == id && !as_map(before).contains_key(id) {
            assert(has_id_at(after, id, before.len() as int));
        }
    }
    assert forall|other: Seq<char>| #[trigger] as_map(after).contains_key(other) implies as_map(
        after,
    )[other] == as_map(before).insert(id, value)[other] by {
        let i = choose|i: int| has_id_at(after, other, i);
        assert(has_id_at(after, other, i));
        lemma_entry_in_map(after, i);
        if other != id {
            assert(has_id_at(before, other, i));
            lemma_entry_in_map(before, i);
        } else if i < before.len() {
            assert(has_id_at(before, id, i));
        }
    }
    assert(as_map(after) =~= as_map(before).insert(id, value));
}

/// Removing one entry removes its identifier from the map.
proof fn lemma_remove<V>(before: Seq<(String, V)>, at: int)
    requires
        distinct_ids(before),
        0 <= at < before.len(),
    ensures
        distinct_ids(before.remove(at)),
        as_map(before.remove(at)) == as_map(before).remove(before[at].0@),
{
    let after = before.remove(at);
    let id = before[at].0@;
    assert(distinct_ids(after)) by {
        assert forall|i: int, j: int| 0 <= i < j < after.len() implies (#[trigger] after[i]).0@
            != (#[trigger] after[j]).0@ by {
            let i0 = if i < at { i } else { i + 1 };
            let j0 = if j < at { j } else { j + 1 };
            assert(before[i0].0@ != before[j0].0@);
        }
    }
    assert forall|other: Seq<char>| #[trigger]
        as_map(after).contains_key(other) <==> as_map(before).remove(id).contains_key(other) by {
        if as_map(after).contains_key(other) {
            let i = choose|i: int| has_id_at(after, other, i);
            let i0 = if i < at { i } else { i + 1 };
            assert(has_id_at(before, other, i0));
            if i0 < at {
                assert(before[i0].0@ != before[at].0@);
            } else {
                assert(before[at].0@ != before[i0].0@);
            }
        }
        if as_map(before).contains_key(other) && other != id {
            let i0 = choose|i0: int| has_id_at(before, other, i0);
            let i = if i0 < at { i0 } else { i0 - 1 };
            assert(has_id_at(after, other, i));
        }
    }
    assert forall|other: Seq<char>| #[trigger] as_map(after).contains_key(other) implies as_map(
        after,
    )[other] == as_map(before).remove(id)[other] by {
        let i = choose|i: int| has_id_at(after, other, i);
        assert(has_id_at(after, other, i));
        let i0 = if i < at { i } else { i + 1 };
        lemma_entry_in_map(after, i);
        lemma_entry_in_map(before, i0);
    }
    assert(as_map(after) =~= as_map(before).remove(id));
}

} // verus!
