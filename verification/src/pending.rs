//! The table of requests that still wait for their answer.
//!
//! Each request that the host sends gets the next id of a counter and an
//! entry that leads from this id to the caller who waits. An entry leaves
//! the table once: when the answer with its id arrives, or when its time is
//! up. The caller is known to the table as a token, a number by which the
//! owner of the table finds the caller again.

use ahash::RandomState;
use dashmap::DashMap;
use vstd::prelude::*;

verus! {

/// `dashmap::DashMap`, a hash map for many threads. Nothing is known of
/// what is inside a value but through [`map_entries`].
#[verifier::external_type_specification]
#[verifier::external_body]
#[verifier::reject_recursive_types(K)]
#[verifier::reject_recursive_types(V)]
#[verifier::reject_recursive_types(S)]
pub struct ExDashMap<K, V, S>(DashMap<K, V, S>);

/// `ahash::RandomState`, the hasher that the map is built with. Nothing is
/// known or asked of it.
#[verifier::external_type_specification]
#[verifier::external_body]
pub struct ExRandomState(RandomState);

/// The entries that a `DashMap` holds: from each key to its value. The
/// table owns its map alone, so that nobody else changes it in between.
pub uninterp spec fn map_entries(map: DashMap<u64, u64, RandomState>) -> Map<u64, u64>;

/// No entries at all.
pub open spec fn no_entries() -> Map<u64, u64> {
    Map::empty()
}

/// `DashMap::default`: a map without entries.
#[verifier::external_body]
fn map_new() -> (map: DashMap<u64, u64, RandomState>)
    ensures
        map_entries(map) == no_entries(),
{
    DashMap::default()
}

/// `DashMap::insert`: afterwards `key` leads to `value`; the value that it
/// led to before is handed back.
#[verifier::external_body]
fn map_insert(map: &mut DashMap<u64, u64, RandomState>, key: u64, value: u64) -> (before: Option<
    u64,
>)
    ensures
        map_entries(*final(map)) == map_entries(*old(map)).insert(key, value),
        before == if map_entries(*old(map)).contains_key(key) {
            Some(map_entries(*old(map))[key])
        } else {
            None
        },
{
    map.insert(key, value)
}

/// `DashMap::remove`: afterwards `key` leads nowhere; the value that it led
/// to before is handed back.
#[verifier::external_body]
fn map_remove(map: &mut DashMap<u64, u64, RandomState>, key: u64) -> (before: Option<u64>)
    ensures
        map_entries(*final(map)) == map_entries(*old(map)).remove(key),
        before == if map_entries(*old(map)).contains_key(key) {
            Some(map_entries(*old(map))[key])
        } else {
            None
        },
{
    map.remove(&key).map(|pair| pair.1)
}

/// `DashMap::is_empty`: whether the map holds no entry.
#[verifier::external_body]
fn map_is_empty(map: &DashMap<u64, u64, RandomState>) -> (empty: bool)
    ensures
        empty <==> map_entries(*map) == no_entries(),
{
    map.is_empty()
}

/// The id that follows `id`; behind the largest id the count starts again.
pub open spec fn spec_next_id(id: u64) -> u64 {
    if id == u64::MAX {
        0
    } else {
        (id + 1) as u64
    }
}

/// The requests in flight, and the id that the next one will get.
pub struct RequestsMap {
    map: DashMap<u64, u64, RandomState>,
    current_id: u64,
}

impl RequestsMap {
    /// From the id of each request in flight to the token of its caller.
    pub closed spec fn entries(&self) -> Map<u64, u64> {
        map_entries(self.map)
    }

    /// The id that the next request will get.
    pub closed spec fn current_id(&self) -> u64 {
        self.current_id
    }

    /// A table without entries, whose first id is zero.
    pub fn new() -> (table: Self)
        ensures
            table.entries() == no_entries(),
            table.current_id() == 0,
    {
        RequestsMap { map: map_new(), current_id: 0 }
    }

    /// Takes the next id for a request and notes who waits for its answer.
    /// The result is the id, and the token of the caller who held this id
    /// before, if such an entry was still there: that caller will get no
    /// answer any more.
    pub fn insert(&mut self, waiter: u64) -> (out: (u64, Option<u64>))
        ensures
            out.0 == old(self).current_id(),
            final(self).current_id() == spec_next_id(old(self).current_id()),
            final(self).entries() == old(self).entries().insert(out.0, waiter),
            out.1 == if old(self).entries().contains_key(out.0) {
                Some(old(self).entries()[out.0])
            } else {
                None
            },
    {
        let id: u64 = self.current_id;
        self.current_id = self.current_id.wrapping_add(1);
        let displaced = map_insert(&mut self.map, id, waiter);
        (id, displaced)
    }

    /// Takes the entry of `id` out of the table and hands back the token of
    /// the caller who waited, or `None` where no such request is in flight.
    pub fn remove(&mut self, id: u64) -> (waiter: Option<u64>)
        ensures
            final(self).current_id() == old(self).current_id(),
            final(self).entries() == old(self).entries().remove(id),
            waiter == if old(self).entries().contains_key(id) {
                Some(old(self).entries()[id])
            } else {
                None
            },
    {
        map_remove(&mut self.map, id)
    }

    /// Whether no request is in flight.
    pub fn is_empty(&self) -> (empty: bool)
        ensures
            empty <==> self.entries() == no_entries(),
    {
        map_is_empty(&self.map)
    }
}

} // verus!
