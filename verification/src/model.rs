//! From maps of records to maps of what the records hold.

use vstd::prelude::*;

verus! {

/// The map with each value replaced by its view. A name becomes its
/// characters, a record with a name in it the same record over characters.
pub open spec fn views<V: View>(map: Map<u32, V>) -> Map<u32, V::V> {
    Map::new(|id: u32| map.contains_key(id), |id: u32| map[id]@)
}

/// The views of an empty map are an empty map.
pub proof fn lemma_views_empty<V: View>()
    ensures
        views(Map::<u32, V>::empty()) == Map::<u32, V::V>::empty(),
{
    assert(views(Map::<u32, V>::empty()) =~= Map::<u32, V::V>::empty());
}

/// To enter a value and then take views is to take views and then enter
/// the view of the value.
pub proof fn lemma_views_insert<V: View>(map: Map<u32, V>, id: u32, value: V)
    ensures
        views(map.insert(id, value)) == views(map).insert(id, value@),
{
    assert(views(map.insert(id, value)) =~= views(map).insert(id, value@));
}

} // verus!
