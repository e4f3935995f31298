//! The concurrent collections of the `dashmap` crate that hold the caches,
//! seen through what they contain.

use dashmap::{DashMap, DashSet};
use vstd::prelude::*;

verus! {

/// `dashmap::DashMap`, carried through the library as an opaque value.
#[verifier::external_type_specification]
#[verifier::external_body]
#[verifier::reject_recursive_types(K)]
#[verifier::reject_recursive_types(V)]
#[verifier::reject_recursive_types(S)]
pub struct ExDashMap<K, V, S>(DashMap<K, V, S>);

/// `dashmap::DashSet`, carried through the library as an opaque value.
#[verifier::external_type_specification]
#[verifier::external_body]
#[verifier::reject_recursive_types(K)]
#[verifier::reject_recursive_types(S)]
pub struct ExDashSet<K, S>(DashSet<K, S>);

/// The identifiers that a `DashSet<u32>` holds.
pub uninterp spec fn set_members(set: DashSet<u32>) -> Set<u32>;

/// The identifier-to-timestamp entries that a `DashMap<u32, i64>` holds.
pub uninterp spec fn map_entries(map: DashMap<u32, i64>) -> Map<u32, i64>;

/// The entries of `m` whose timestamps `keep` accepts; the others are gone.
pub open spec fn retained(m: Map<u32, i64>, keep: spec_fn(i64) -> bool) -> Map<u32, i64> {
    Map::new(|k: u32| m.contains_key(k) && keep(m[k]), |k: u32| m[k])
}

/// `DashSet::new`: a set that holds nothing.
#[verifier::external_body]
pub(crate) fn set_new() -> (set: DashSet<u32>)
    ensures
        set_members(set).is_empty(),
{
    DashSet::new()
}

/// `DashSet::insert`: afterwards the set holds `id` besides what it held; the
/// result tells whether `id` was new to it.
#[verifier::external_body]
pub(crate) fn set_insert(set: &mut DashSet<u32>, id: u32) -> (added: bool)
    ensures
        set_members(*final(set)) == set_members(*old(set)).insert(id),
        added == !set_members(*old(set)).contains(id),
{
    set.insert(id)
}

/// `DashSet::contains`: whether the set holds `id`; the set is unchanged.
#[verifier::external_body]
pub(crate) fn set_contains(set: &DashSet<u32>, id: u32) -> (r: bool)
    ensures
        r == set_members(*set).contains(id),
{
    set.contains(&id)
}

/// `DashMap::new`: a map that holds nothing.
#[verifier::external_body]
pub(crate) fn map_new() -> (created: DashMap<u32, i64>)
    ensures
        map_entries(created).is_empty(),
{
    DashMap::new()
}

/// `DashMap::insert`: afterwards `id` maps to `stamp`, every other entry as
/// before; the result is the timestamp that `id` had, if any.
#[verifier::external_body]
pub(crate) fn map_insert(map: &mut DashMap<u32, i64>, id: u32, stamp: i64) -> (previous: Option<i64>)
    ensures
        map_entries(*final(map)) == map_entries(*old(map)).insert(id, stamp),
        previous == (if map_entries(*old(map)).contains_key(id) {
            Some(map_entries(*old(map))[id])
        } else {
            None
        }),
{
    map.insert(id, stamp)
}

/// `DashMap::remove`: afterwards `id` has no entry, every other entry as
/// before; the result is the entry that was removed, if any.
#[verifier::external_body]
pub(crate) fn map_remove(map: &mut DashMap<u32, i64>, id: u32) -> (removed: Option<(u32, i64)>)
    ensures
        map_entries(*final(map)) == map_entries(*old(map)).remove(id),
        removed == (if map_entries(*old(map)).contains_key(id) {
            Some((id, map_entries(*old(map))[id]))
        } else {
            None
        }),
{
    map.remove(&id)
}

/// `DashMap::contains_key`: whether `id` has an entry; the map is unchanged.
#[verifier::external_body]
pub(crate) fn map_contains_key(map: &DashMap<u32, i64>, id: u32) -> (r: bool)
    ensures
        r == map_entries(*map).contains_key(id),
{
    map.contains_key(&id)
}

/// `DashMap::len`: how many entries the map holds.
#[verifier::external_body]
pub(crate) fn map_len(map: &DashMap<u32, i64>) -> (n: usize)
    ensures
        n == map_entries(*map).len(),
{
    map.len()
}

/// `DashMap::retain` with a predicate that keeps the entries whose timestamp
/// is less than `expiration_minutes` minutes older than `now`
/// (`crate::cache::entry_is_fresh`): afterwards the map holds exactly the
/// entries that it held and that the predicate accepted, unchanged.
#[verifier::external_body]
pub(crate) fn map_retain_fresh(map: &mut DashMap<u32, i64>, now: i64, expiration_minutes: u32)
    ensures
        map_entries(*final(map)) == retained(
            map_entries(*old(map)),
            |stamp: i64| crate::cache::is_fresh(now as int, stamp as int, expiration_minutes as int),
        ),
{
    map.retain(|_, stamp| crate::cache::entry_is_fresh(now, *stamp, expiration_minutes))
}

} // verus!
