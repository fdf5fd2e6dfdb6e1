//! What holds of maps with text keys and of walks over keys.

use crate::string_map::StringMap;
use vstd::prelude::*;

verus! {

/// A walk visits every key at one place and at one only, and visits nothing
/// else; so it is as long as there are keys.
pub proof fn law_walk_visits_each_key_once<K>(order: Seq<K>, keys: Set<K>)
    ensures
        crate::string_map::is_walk(order, keys) <==> {
            &&& forall|i: int| 0 <= i < order.len() ==> keys.contains(#[trigger] order[i])
            &&& forall|k: K| #[trigger] keys.contains(k) ==> order.contains(k)
            &&& forall|i: int, j: int|
                0 <= i < order.len() && 0 <= j < order.len() && i != j ==> #[trigger] order[i]
                    != #[trigger] order[j]
        },
        crate::string_map::is_walk(order, keys) ==> keys.finite() && keys.len() == order.len(),
{
    if crate::string_map::is_walk(order, keys) {
        order.unique_seq_to_set();
        assert forall|i: int| 0 <= i < order.len() implies keys.contains(#[trigger] order[i]) by {
            assert(order.to_set().contains(order[i]));
        }
        assert forall|k: K| #[trigger] keys.contains(k) implies order.contains(k) by {
            assert(order.to_set().contains(k));
        }
    }
    if {
        &&& forall|i: int| 0 <= i < order.len() ==> keys.contains(#[trigger] order[i])
        &&& forall|k: K| #[trigger] keys.contains(k) ==> order.contains(k)
        &&& forall|i: int, j: int|
            0 <= i < order.len() && 0 <= j < order.len() && i != j ==> #[trigger] order[i]
                != #[trigger] order[j]
    } {
        assert forall|k: K| order.to_set().contains(k) == keys.contains(k) by {
            if order.contains(k) {
                let i = choose|i: int| 0 <= i < order.len() && order[i] == k;
                assert(keys.contains(order[i]));
            }
        }
        assert(order.to_set() =~= keys);
        assert(order.no_duplicates());
    }
}

/// What is set under a key is what is found there, and what other keys had stays.
pub proof fn law_inserted_value_is_found(
    map: &mut StringMap<String>,
    key: String,
    value: String,
    asked: &str,
    found: Option<&String>,
)
    requires
        call_ensures(StringMap::<String>::insert, (map, key, value), ()),
        call_ensures(StringMap::<String>::get, (&*final(map), asked), found),
    ensures
        asked@ == key@ ==> found is Some && found->0@ == value@,
        asked@ != key@ ==> (found is Some <==> old(map)@.contains_key(asked@)),
        asked@ != key@ && found is Some ==> found->0@ == old(map)@[asked@],
{
}

/// A map tells which keys it holds, lists each of them once and counts them; a
/// new one holds none.
pub proof fn law_map_tells_its_keys(
    map: StringMap<String>,
    key: &str,
    held: bool,
    keys: Vec<String>,
    len: usize,
    empty: bool,
    fresh: StringMap<String>,
)
    requires
        call_ensures(StringMap::<String>::contains_key, (&map, key), held),
        call_ensures(StringMap::<String>::keys, (&map,), keys),
        call_ensures(StringMap::<String>::len, (&map,), len),
        call_ensures(StringMap::<String>::is_empty, (&map,), empty),
        call_ensures(StringMap::<String>::new, (), fresh),
    ensures
        held <==> map@.contains_key(key@),
        held <==> exists|i: int| 0 <= i < keys@.len() && (#[trigger] keys@[i])@ == key@,
        forall|i: int, j: int|
            0 <= i < j < keys@.len() ==> (#[trigger] keys@[i])@ != (#[trigger] keys@[j])@,
        len == keys@.len(),
        empty <==> len == 0,
        !fresh@.contains_key(key@),
{
    let texts = keys@.map_values(|k: String| k@);
    law_walk_visits_each_key_once(texts, map@.dom());
    assert(texts.len() == keys@.len());
    assert forall|i: int, j: int| 0 <= i < j < keys@.len() implies (#[trigger] keys@[i])@ != (
    #[trigger] keys@[j])@ by {
        assert(texts[i] != texts[j]);
    }
    if map@.contains_key(key@) {
        assert(map@.dom().contains(key@));
        let i = choose|i: int| 0 <= i < texts.len() && texts[i] == key@;
        assert(keys@[i]@ == key@);
    }
    if exists|i: int| 0 <= i < keys@.len() && (#[trigger] keys@[i])@ == key@ {
        let i = choose|i: int| 0 <= i < keys@.len() && (#[trigger] keys@[i])@ == key@;
        assert(map@.dom().contains(texts[i]));
    }
    if len == 0 {
        assert(map@.dom() =~= Set::<Seq<char>>::empty());
        assert(map@ =~= Map::<Seq<char>, Seq<char>>::empty());
    }
}

} // verus!
