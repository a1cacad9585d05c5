//! What a map by name keeps.

use vstd::prelude::*;

use crate::names::NameMap;

verus! {

/// What was put under a name is found there, and nothing else has changed.
pub proof fn what_is_put_in_is_found<V>(
    map: &mut NameMap<V>,
    name: String,
    value: V,
    asked: &str,
    before: Option<&V>,
    after: Option<&V>,
)
    requires
        call_ensures(NameMap::<V>::insert, (map, name, value), ()),
        call_ensures(NameMap::<V>::get, (&*old(map), asked), before),
        call_ensures(NameMap::<V>::get, (&*final(map), asked), after),
    ensures
        asked@ == name@ ==> after == Some(&value),
        asked@ != name@ ==> after == before,
{
}

/// What was taken out is handed back and found no more, and nothing else has changed.
pub proof fn what_is_taken_out_is_gone<V>(
    map: &mut NameMap<V>,
    name: &str,
    removed: Option<V>,
    asked: &str,
    before: Option<&V>,
    after: Option<&V>,
)
    requires
        call_ensures(NameMap::<V>::remove, (map, name), removed),
        call_ensures(NameMap::<V>::get, (&*old(map), asked), before),
        call_ensures(NameMap::<V>::get, (&*final(map), asked), after),
    ensures
        asked@ == name@ ==> after is None && match before {
            Some(value) => removed == Some(*value),
            None => removed is None,
        },
        asked@ != name@ ==> after == before,
{
}

/// A new map holds nothing.
pub proof fn new_maps_are_empty<V>(map: NameMap<V>, name: &str, found: Option<&V>, length: usize)
    requires
        call_ensures(NameMap::<V>::new, (), map),
        call_ensures(NameMap::<V>::get, (&map, name), found),
        call_ensures(NameMap::<V>::len, (&map,), length),
    ensures
        found is None,
        length == 0,
{
}

/// A name is there where a value is found under it.
pub proof fn names_are_there_with_their_values<V>(
    map: &NameMap<V>,
    name: &str,
    present: bool,
    found: Option<&V>,
)
    requires
        call_ensures(NameMap::<V>::contains_key, (map, name), present),
        call_ensures(NameMap::<V>::get, (map, name), found),
    ensures
        present <==> found is Some,
        present <==> map@.dom().contains(name@),
        found matches Some(value) ==> *value == map@[name@],
{
}

/// Walking a map by index shows each value under its own name, in the order of names,
/// and misses none.
pub proof fn walking_shows_every_entry<V>(
    map: &NameMap<V>,
    length: usize,
    index: usize,
    name: &str,
    value: &V,
    found: Option<&V>,
)
    requires
        call_ensures(NameMap::<V>::len, (map,), length),
        index < length,
        call_ensures(NameMap::<V>::name_at, (map, index), name),
        call_ensures(NameMap::<V>::value_at, (map, index), value),
        call_ensures(NameMap::<V>::get, (map, name), found),
    ensures
        found == Some(value),
        length == map@.dom().len(),
        forall|other: int|
            0 <= other < index ==> crate::text::text_less(
                #[trigger] map.entry_seq()[other].0,
                name@,
            ),
{
    crate::names::map_of_entry(map.entry_seq(), index as int);
}

} // verus!
