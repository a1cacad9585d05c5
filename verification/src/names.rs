//! A map from names to values that is walked in the order of the names.

use vstd::prelude::*;

use crate::text::{self, is_before, same_text};

verus! {

broadcast use vstd::seq_lib::group_seq_properties;

/// Values by name. Every name occurs once, and the entries stand in the order
/// of their names.
#[derive(Debug, PartialEq)]
pub struct NameMap<V> {
    entries: Vec<(String, V)>,
}

/// The entries of a map, each with the text of its name.
pub open spec fn named<V>(entries: Seq<(String, V)>) -> Seq<(Seq<char>, V)> {
    entries.map_values(|entry: (String, V)| (entry.0@, entry.1))
}

/// Names stand in their order, so that none occurs twice.
pub open spec fn in_order<V>(entries: Seq<(Seq<char>, V)>) -> bool {
    forall|i: int, j: int|
        0 <= i < j < entries.len() ==> text::text_less(
            #[trigger] entries[i].0,
            #[trigger] entries[j].0,
        )
}

/// The map that `entries` describes.
pub open spec fn map_of<V>(entries: Seq<(Seq<char>, V)>) -> Map<Seq<char>, V>
    decreases entries.len(),
{
    if entries.len() == 0 {
        Map::empty()
    } else {
        map_of(entries.drop_last()).insert(entries.last().0, entries.last().1)
    }
}

/// A name is in the map of `entries` if and only if some entry bears it.
pub proof fn map_of_names<V>(entries: Seq<(Seq<char>, V)>, name: Seq<char>)
    ensures
        map_of(entries).dom().contains(name) <==> exists|i: int|
            0 <= i < entries.len() && #[trigger] entries[i].0 == name,
    decreases entries.len(),
{
    if entries.len() > 0 {
        let rest = entries.drop_last();
        map_of_names(rest, name);
        if map_of(entries).dom().contains(name) {
            if entries.last().0 == name {
                assert(entries[entries.len() - 1].0 == name);
            } else {
                let i = choose|i: int| 0 <= i < rest.len() && #[trigger] rest[i].0 == name;
                assert(entries[i].0 == name);
            }
        }
        if exists|i: int| 0 <= i < entries.len() && #[trigger] entries[i].0 == name {
            let i = choose|i: int| 0 <= i < entries.len() && #[trigger] entries[i].0 == name;
            if i < entries.len() - 1 {
                assert(rest[i].0 == name);
            }
        }
    }
}

/// Where the names stand in order, each entry's value is the map's value for its
/// name.
pub proof fn map_of_entry<V>(entries: Seq<(Seq<char>, V)>, i: int)
    requires
        in_order(entries),
        0 <= i < entries.len(),
    ensures
        map_of(entries).dom().contains(entries[i].0),
        map_of(entries)[entries[i].0] == entries[i].1,
    decreases entries.len(),
{
    if i < entries.len() - 1 {
        let rest = entries.drop_last();
        assert forall|a: int, b: int| 0 <= a < b < rest.len() implies text::text_less(
            #[trigger] rest[a].0,
            #[trigger] rest[b].0,
        ) by {
            assert(text::text_less(entries[a].0, entries[b].0));
        }
        map_of_entry(rest, i);
        assert(text::text_less(entries[i].0, entries[entries.len() - 1].0));
        text::text_less_irreflexive(entries[i].0);
    }
}

/// A map of entries has finitely many names.
pub proof fn map_of_finite<V>(entries: Seq<(Seq<char>, V)>)
    ensures
        map_of(entries).dom().finite(),
    decreases entries.len(),
{
    if entries.len() > 0 {
        map_of_finite(entries.drop_last());
    }
}

/// Where the names stand in order, there are as many names as entries.
pub proof fn map_of_size<V>(entries: Seq<(Seq<char>, V)>)
    requires
        in_order(entries),
    ensures
        map_of(entries).dom().finite(),
        map_of(entries).dom().len() == entries.len(),
    decreases entries.len(),
{
    map_of_finite(entries);
    if entries.len() > 0 {
        let rest = entries.drop_last();
        assert forall|a: int, b: int| 0 <= a < b < rest.len() implies text::text_less(
            #[trigger] rest[a].0,
            #[trigger] rest[b].0,
        ) by {
            assert(text::text_less(entries[a].0, entries[b].0));
        }
        map_of_size(rest);
        map_of_names(rest, entries.last().0);
        if map_of(rest).dom().contains(entries.last().0) {
            let i = choose|i: int| 0 <= i < rest.len() && #[trigger] rest[i].0 == entries.last().0;
            assert(text::text_less(entries[i].0, entries[entries.len() - 1].0));
            text::text_less_irreflexive(entries[i].0);
        }
    }
}

/// Whether no entry bears `name`.
spec fn unnamed<V>(entries: Seq<(Seq<char>, V)>, name: Seq<char>) -> bool {
    forall|i: int| 0 <= i < entries.len() ==> #[trigger] entries[i].0 != name
}

/// A map does not depend on where an entry with a new name is put in.
proof fn map_of_insert<V>(entries: Seq<(Seq<char>, V)>, at: int, name: Seq<char>, value: V)
    requires
        0 <= at <= entries.len(),
        unnamed(entries, name),
    ensures
        map_of(entries.insert(at, (name, value))) == map_of(entries).insert(name, value),
    decreases entries.len(),
{
    let grown = entries.insert(at, (name, value));
    if at == entries.len() {
        assert(grown.drop_last() =~= entries);
    } else {
        let rest = entries.drop_last();
        assert(grown.drop_last() =~= rest.insert(at, (name, value)));
        assert forall|i: int| 0 <= i < rest.len() implies #[trigger] rest[i].0 != name by {
            assert(entries[i].0 != name);
        }
        map_of_insert(rest, at, name, value);
        assert(entries[entries.len() - 1].0 != name);
        assert(map_of(grown) =~= map_of(entries).insert(name, value));
    }
}

/// Taking out the only entry with its name takes the name out of the map.
proof fn map_of_remove<V>(entries: Seq<(Seq<char>, V)>, at: int)
    requires
        0 <= at < entries.len(),
        in_order(entries),
    ensures
        map_of(entries.remove(at)) == map_of(entries).remove(entries[at].0),
{
    let shrunk = entries.remove(at);
    let (name, value) = entries[at];
    assert forall|i: int| 0 <= i < shrunk.len() implies #[trigger] shrunk[i].0 != name by {
        text::text_less_irreflexive(name);
        if i < at {
            assert(text::text_less(entries[i].0, entries[at].0));
        } else {
            assert(text::text_less(entries[at].0, entries[i + 1].0));
        }
    }
    map_of_insert(shrunk, at, name, value);
    assert(shrunk.insert(at, (name, value)) =~= entries);
    map_of_names(shrunk, name);
    assert(map_of(shrunk) =~= map_of(entries).remove(name));
}

/// Giving the only entry with its name a new value changes the map there alone.
proof fn map_of_update<V>(entries: Seq<(Seq<char>, V)>, at: int, value: V)
    requires
        0 <= at < entries.len(),
        in_order(entries),
    ensures
        map_of(entries.update(at, (entries[at].0, value))) == map_of(entries).insert(
            entries[at].0,
            value,
        ),
{
    let shrunk = entries.remove(at);
    let name = entries[at].0;
    map_of_remove(entries, at);
    map_of_names(shrunk, name);
    assert forall|i: int| 0 <= i < shrunk.len() implies #[trigger] shrunk[i].0 != name by {
        text::text_less_irreflexive(name);
        if i < at {
            assert(text::text_less(entries[i].0, entries[at].0));
        } else {
            assert(text::text_less(entries[at].0, entries[i + 1].0));
        }
    }
    map_of_insert(shrunk, at, name, value);
    assert(shrunk.insert(at, (name, value)) =~= entries.update(at, (name, value)));
    assert(map_of(entries).remove(name).insert(name, value) =~= map_of(entries).insert(
        name,
        value,
    ));
}

/// The entries of a map, and so the order in which they are walked, are
/// determined by what the map holds.
pub proof fn entries_follow_from_map<V>(a: Seq<(Seq<char>, V)>, b: Seq<(Seq<char>, V)>)
    requires
        in_order(a),
        in_order(b),
        map_of(a) == map_of(b),
    ensures
        a == b,
    decreases a.len(),
{
    if a.len() == 0 {
        if b.len() > 0 {
            map_of_entry(b, 0);
        }
        assert(a =~= b);
    } else {
        let last = a.len() - 1;
        map_of_entry(a, last);
        map_of_names(b, a[last].0);
        let i = choose|i: int| 0 <= i < b.len() && #[trigger] b[i].0 == a[last].0;
        let end = b.len() - 1;
        map_of_entry(b, end);
        map_of_names(a, b[end].0);
        let j = choose|j: int| 0 <= j < a.len() && #[trigger] a[j].0 == b[end].0;
        if i < end && j < last {
            text::text_less_transitive(a[j].0, a[last].0, b[end].0);
            text::text_less_irreflexive(a[j].0);
        } else if i < end {
            text::text_less_irreflexive(b[end].0);
            assert(text::text_less(b[i].0, b[end].0));
        } else if j < last {
            text::text_less_irreflexive(a[last].0);
            assert(text::text_less(a[j].0, a[last].0));
        }
        map_of_entry(a, last);
        assert(a.last() == b.last());
        map_of_remove(a, last);
        map_of_remove(b, end);
        assert(a.remove(last) =~= a.drop_last());
        assert(b.remove(end) =~= b.drop_last());
        let a_rest = a.drop_last();
        let b_rest = b.drop_last();
        assert forall|x: int, y: int| 0 <= x < y < a_rest.len() implies text::text_less(
            #[trigger] a_rest[x].0,
            #[trigger] a_rest[y].0,
        ) by {
            assert(text::text_less(a[x].0, a[y].0));
        }
        assert forall|x: int, y: int| 0 <= x < y < b_rest.len() implies text::text_less(
            #[trigger] b_rest[x].0,
            #[trigger] b_rest[y].0,
        ) by {
            assert(text::text_less(b[x].0, b[y].0));
        }
        entries_follow_from_map(a_rest, b_rest);
        assert(a =~= a_rest.push(a.last()));
        assert(b =~= b_rest.push(b.last()));
    }
}

impl<V> View for NameMap<V> {
    type V = Map<Seq<char>, V>;

    open spec fn view(&self) -> Map<Seq<char>, V> {
        map_of(self.entry_seq())
    }
}

impl<V> NameMap<V> {
    /// The entries in the order in which they are walked.
    pub closed spec fn entry_seq(self) -> Seq<(Seq<char>, V)> {
        named(self.entries@)
    }

    /// A map is above each of its values.
    pub proof fn value_is_part(self, index: int)
        requires
            0 <= index < self.entry_seq().len(),
        ensures
            decreases_to!(self => self.entry_seq()[index].1),
    {
        assert(decreases_to!(self => self.entries));
        assert(decreases_to!(self.entries => self.entries@));
        assert(decreases_to!(self.entries@ => self.entries@[index]));
        assert(decreases_to!(self.entries@[index] => self.entries@[index].1));
    }

    #[verifier::type_invariant]
    spec fn ordered(self) -> bool {
        in_order(named(self.entries@))
    }

    /// The map without entries.
    pub fn new() -> (map: NameMap<V>)
        ensures
            map@ == Map::<Seq<char>, V>::empty(),
            map.entry_seq() == Seq::<(Seq<char>, V)>::empty(),
    {
        let entries: Vec<(String, V)> = Vec::new();
        proof {
            assert(named(entries@) =~= Seq::empty());
        }
        NameMap { entries }
    }

    /// The number of entries.
    pub fn len(&self) -> (length: usize)
        ensures
            length == self.entry_seq().len(),
            length == self@.dom().len(),
            in_order(self.entry_seq()),
    {
        proof {
            use_type_invariant(&*self);
            map_of_size(named(self.entries@));
        }
        self.entries.len()
    }

    /// The name of the entry at `index`.
    pub fn name_at(&self, index: usize) -> (name: &str)
        requires
            index < self.entry_seq().len(),
        ensures
            name@ == self.entry_seq()[index as int].0,
    {
        self.entries[index].0.as_str()
    }

    /// The value of the entry at `index`.
    pub fn value_at(&self, index: usize) -> (value: &V)
        requires
            index < self.entry_seq().len(),
        ensures
            *value == self.entry_seq()[index as int].1,
    {
        &self.entries[index].1
    }

    /// The first place whose name is not before `name`.
    fn place_of(&self, name: &str) -> (place: usize)
        ensures
            place <= self.entries@.len(),
            forall|i: int|
                0 <= i < place ==> text::text_less(
                    #[trigger] named(self.entries@)[i].0,
                    name@,
                ),
            place < self.entries@.len() ==> !text::text_less(
                named(self.entries@)[place as int].0,
                name@,
            ),
    {
        let mut place: usize = 0;
        while place < self.entries.len() && is_before(self.entries[place].0.as_str(), name)
            invariant
                place <= self.entries@.len(),
                forall|i: int|
                    0 <= i < place ==> text::text_less(
                        #[trigger] named(self.entries@)[i].0,
                        name@,
                    ),
            decreases self.entries@.len() - place,
        {
            place = place + 1;
        }
        place
    }

    /// The value under `name`, if there is one.
    pub fn get(&self, name: &str) -> (value: Option<&V>)
        ensures
            match value {
                Some(found) => self@.dom().contains(name@) && *found == self@[name@],
                None => !self@.dom().contains(name@),
            },
    {
        proof {
            use_type_invariant(&*self);
        }
        let place = self.place_of(name);
        let ghost entries = named(self.entries@);
        if place < self.entries.len() && same_text(self.entries[place].0.as_str(), name) {
            proof {
                map_of_entry(entries, place as int);
            }
            Some(&self.entries[place].1)
        } else {
            proof {
                self.absent_at(name@, place as int);
            }
            None
        }
    }

    /// A name whose place is taken by another, or past the end, is not there.
    proof fn absent_at(&self, name: Seq<char>, place: int)
        requires
            in_order(named(self.entries@)),
            0 <= place <= self.entries@.len(),
            forall|i: int|
                0 <= i < place ==> text::text_less(
                    #[trigger] named(self.entries@)[i].0,
                    name,
                ),
            place < self.entries@.len() ==> !text::text_less(
                named(self.entries@)[place].0,
                name,
            ) && named(self.entries@)[place].0 != name,
        ensures
            unnamed(named(self.entries@), name),
            !self@.dom().contains(name),
            forall|i: int|
                place <= i < self.entries@.len() ==> text::text_less(
                    name,
                    #[trigger] named(self.entries@)[i].0,
                ),
    {
        let entries = named(self.entries@);
        assert forall|i: int|
            place <= i < entries.len() implies text::text_less(
            name,
            #[trigger] entries[i].0,
        ) by {
            text::text_less_total(name, entries[place].0);
            if i > place {
                assert(text::text_less(entries[place].0, entries[i].0));
                text::text_less_transitive(name, entries[place].0, entries[i].0);
            }
        }
        text::text_less_irreflexive(name);
        assert forall|i: int| 0 <= i < entries.len() implies #[trigger] entries[i].0 != name by {
            if i < place {
                assert(text::text_less(entries[i].0, name));
            } else {
                assert(text::text_less(name, entries[i].0));
            }
        }
        map_of_names(entries, name);
    }

    /// Whether there is a value under `name`.
    pub fn contains_key(&self, name: &str) -> (present: bool)
        ensures
            present == self@.dom().contains(name@),
    {
        self.get(name).is_some()
    }

    /// Puts `value` under `name`, in place of what was there.
    pub fn insert(&mut self, name: String, value: V)
        ensures
            final(self)@ == old(self)@.insert(name@, value),
    {
        proof {
            use_type_invariant(&*self);
        }
        let place = self.place_of(name.as_str());
        let ghost before = named(self.entries@);
        let mut entries: Vec<(String, V)> = Vec::new();
        proof {
            assert(named(entries@) =~= Seq::empty());
        }
        let present = place < self.entries.len() && same_text(
            self.entries[place].0.as_str(),
            name.as_str(),
        );
        proof {
            if !present {
                self.absent_at(name@, place as int);
            }
        }
        std::mem::swap(&mut self.entries, &mut entries);
        if present {
            proof {
                map_of_update(before, place as int, value);
            }
            entries.set(place, (name, value));
            proof {
                assert(named(entries@) =~= before.update(place as int, (name@, value)));
            }
        } else {
            proof {
                map_of_insert(before, place as int, name@, value);
            }
            entries.insert(place, (name, value));
            proof {
                let after = named(entries@);
                assert(after =~= before.insert(place as int, (name@, value)));
                assert forall|i: int, j: int| 0 <= i < j < after.len() implies text::text_less(
                    #[trigger] after[i].0,
                    #[trigger] after[j].0,
                ) by {
                    if i < place && j > place {
                        assert(text::text_less(before[i].0, before[j - 1].0));
                    } else if i < place && j < place {
                        assert(text::text_less(before[i].0, before[j].0));
                    } else if i < place {
                        assert(text::text_less(before[i].0, name@));
                    } else if i == place {
                        assert(text::text_less(name@, before[j - 1].0));
                    } else {
                        assert(text::text_less(before[i - 1].0, before[j - 1].0));
                    }
                }
            }
        }
        self.entries = entries;
    }

    /// Takes out what is under `name`, and hands it back.
    pub fn remove(&mut self, name: &str) -> (removed: Option<V>)
        ensures
            final(self)@ == old(self)@.remove(name@),
            match removed {
                Some(value) => old(self)@.dom().contains(name@) && value == old(self)@[name@],
                None => !old(self)@.dom().contains(name@),
            },
    {
        proof {
            use_type_invariant(&*self);
        }
        let place = self.place_of(name);
        let ghost before = named(self.entries@);
        if place < self.entries.len() && same_text(self.entries[place].0.as_str(), name) {
            let mut entries: Vec<(String, V)> = Vec::new();
            proof {
                assert(named(entries@) =~= Seq::empty());
                map_of_entry(before, place as int);
                map_of_remove(before, place as int);
            }
            std::mem::swap(&mut self.entries, &mut entries);
            let (_, value) = entries.remove(place);
            proof {
                let after = named(entries@);
                assert(after =~= before.remove(place as int));
                assert forall|i: int, j: int| 0 <= i < j < after.len() implies text::text_less(
                    #[trigger] after[i].0,
                    #[trigger] after[j].0,
                ) by {
                    let a = if i < place { i } else { i + 1 };
                    let b = if j < place { j } else { j + 1 };
                    assert(text::text_less(before[a].0, before[b].0));
                }
            }
            self.entries = entries;
            Some(value)
        } else {
            proof {
                self.absent_at(name@, place as int);
                assert(self@.remove(name@) =~= self@);
            }
            None
        }
    }
}

} // verus!
