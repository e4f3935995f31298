//! The two caches: the permanent one of levels known to be sent, and the
//! temporary one of levels found not sent, with the time each was found so.

use crate::dash::{
    map_contains_key, map_entries, map_insert, map_len, map_new, map_remove, map_retain_fresh,
    retained, set_contains, set_insert, set_members, set_new,
};
use dashmap::{DashMap, DashSet};
use vstd::prelude::*;

verus! {

/// Whether an entry stamped at `stamp` (seconds) is still to be kept at
/// `now`: it is less than `expiration_minutes` minutes old.
pub open spec fn is_fresh(now: int, stamp: int, expiration_minutes: int) -> bool {
    now - stamp < expiration_minutes * 60
}

/// Decides `is_fresh`, on the exact difference of the two times.
pub fn entry_is_fresh(now: i64, stamp: i64, expiration_minutes: u32) -> (r: bool)
    ensures
        r == is_fresh(now as int, stamp as int, expiration_minutes as int),
{
    let age: i128 = now as i128 - stamp as i128;
    let limit: i128 = expiration_minutes as i128 * 60;
    age < limit
}

/// What the caches hold: the levels known to be sent, and for each level
/// found not sent, the time (seconds since the epoch) at which it was.
pub struct CacheView {
    pub sent: Set<u32>,
    pub not_sent: Map<u32, i64>,
}

/// The entries of `not_sent` that are still fresh at `now`.
pub open spec fn fresh_part(not_sent: Map<u32, i64>, now: int, expiration_minutes: int) -> Map<u32, i64> {
    retained(not_sent, |stamp: i64| is_fresh(now, stamp as int, expiration_minutes))
}

/// The caches of the service.
pub struct LevelCache {
    sent: DashSet<u32>,
    not_sent: DashMap<u32, i64>,
}

impl View for LevelCache {
    type V = CacheView;

    closed spec fn view(&self) -> CacheView {
        CacheView { sent: set_members(self.sent), not_sent: map_entries(self.not_sent) }
    }
}

impl LevelCache {
    /// Both caches empty.
    pub fn new() -> (cache: Self)
        ensures
            cache@.sent.is_empty(),
            cache@.not_sent.is_empty(),
    {
        LevelCache { sent: set_new(), not_sent: map_new() }
    }

    /// Puts the levels that the database holds into the permanent cache.
    pub fn load_sent_levels(&mut self, ids: &Vec<u32>)
        ensures
            final(self)@.sent == old(self)@.sent.union(ids@.to_set()),
            final(self)@.not_sent == old(self)@.not_sent,
    {
        let mut i: usize = 0;
        while i < ids.len()
            invariant
                i <= ids@.len(),
                self@.sent == old(self)@.sent.union(ids@.subrange(0, i as int).to_set()),
                self@.not_sent == old(self)@.not_sent,
            decreases ids@.len() - i,
        {
            set_insert(&mut self.sent, ids[i]);
            proof {
                assert(ids@.subrange(0, i + 1) =~= ids@.subrange(0, i as int).push(ids@[i as int]));
                assert(ids@.subrange(0, i as int).push(ids@[i as int]).to_set()
                    =~= ids@.subrange(0, i as int).to_set().insert(ids@[i as int])) by {
                    ids@.subrange(0, i as int).lemma_push_to_set_commute(ids@[i as int]);
                }
            }
            i = i + 1;
            assert(self@.sent =~= old(self)@.sent.union(ids@.subrange(0, i as int).to_set()));
        }
        assert(ids@.subrange(0, i as int) =~= ids@);
    }

    /// Adds a level to the permanent cache.
    pub fn add_sent_level(&mut self, id: u32)
        ensures
            final(self)@.sent == old(self)@.sent.insert(id),
            final(self)@.not_sent == old(self)@.not_sent,
    {
        set_insert(&mut self.sent, id);
    }

    /// Whether the permanent cache holds the level. Where it does not, the
    /// database is still to be asked.
    pub fn is_level_sent(&self, id: u32) -> (r: bool)
        ensures
            r == self@.sent.contains(id),
    {
        set_contains(&self.sent, id)
    }

    /// Whether the temporary cache holds the level.
    pub fn is_not_sent_cached(&self, id: u32) -> (r: bool)
        ensures
            r == self@.not_sent.contains_key(id),
    {
        map_contains_key(&self.not_sent, id)
    }

    /// Records in the temporary cache that the level was found not sent at `now`.
    pub fn add_not_sent_level(&mut self, id: u32, now: i64)
        ensures
            final(self)@.not_sent == old(self)@.not_sent.insert(id, now),
            final(self)@.sent == old(self)@.sent,
    {
        map_insert(&mut self.not_sent, id, now);
    }

    /// Takes the level out of the temporary cache.
    pub fn remove_not_sent_level(&mut self, id: u32)
        ensures
            final(self)@.not_sent == old(self)@.not_sent.remove(id),
            final(self)@.sent == old(self)@.sent,
    {
        map_remove(&mut self.not_sent, id);
    }

    /// How many levels the temporary cache holds.
    pub fn not_sent_count(&self) -> (n: usize)
        ensures
            n == self@.not_sent.len(),
    {
        map_len(&self.not_sent)
    }

    /// Drops from the temporary cache every level found not sent
    /// `expiration_minutes` minutes or more before `now`, so that it is
    /// checked again; keeps the others as they were.
    pub fn purge_expired(&mut self, now: i64, expiration_minutes: u32)
        ensures
            final(self)@.not_sent == fresh_part(
                old(self)@.not_sent,
                now as int,
                expiration_minutes as int,
            ),
            final(self)@.sent == old(self)@.sent,
    {
        map_retain_fresh(&mut self.not_sent, now, expiration_minutes);
    }
}

} // verus!
