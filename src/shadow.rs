//! The shadow: the last known value of each point, with its timestamp.
use vstd::prelude::*;
use std::collections::HashMap;
use crate::model::Value;

verus! {

broadcast use vstd::std_specs::hash::group_hash_axioms;

/// A cached value, when it was observed, and whether it is still fresh.
#[derive(Clone, Debug)]
pub struct ShadowEntry {
    pub value: Value,
    pub timestamp: u64,
    pub fresh: bool,
}

/// The shadow after a put: an entry with a later timestamp than `ts` is kept,
/// otherwise the point gets a fresh entry holding `v` at `ts`.
pub open spec fn shadow_put(m: Map<i64, ShadowEntry>, id: i64, v: Value, ts: u64) -> Map<i64, ShadowEntry> {
    if m.contains_key(id) && m[id].timestamp > ts {
        m
    } else {
        m.insert(id, ShadowEntry { value: v, timestamp: ts, fresh: true })
    }
}

/// Last known point values, keyed by point id.
pub struct PointShadow {
    entries: HashMap<i64, ShadowEntry>,
}

impl View for PointShadow {
    type V = Map<i64, ShadowEntry>;

    closed spec fn view(&self) -> Map<i64, ShadowEntry> {
        self.entries@
    }
}

impl PointShadow {
    /// An empty shadow.
    pub fn new() -> (r: Self)
        ensures
            r@ == Map::<i64, ShadowEntry>::empty(),
    {
        PointShadow { entries: HashMap::new() }
    }

    /// The cached value of a point and its timestamp.
    pub fn get(&self, point_id: i64) -> (r: Option<(Value, u64)>)
        ensures
            r is Some <==> self@.contains_key(point_id),
            r matches Some(p) ==> p.0 == self@[point_id].value && p.1 == self@[point_id].timestamp,
    {
        match self.entries.get(&point_id) {
            Some(e) => Some((e.value.duplicate(), e.timestamp)),
            None => None,
        }
    }

    /// The cached value of a point, only where its entry is fresh.
    pub fn get_fresh(&self, point_id: i64) -> (r: Option<Value>)
        ensures
            r is Some <==> self@.contains_key(point_id) && self@[point_id].fresh,
            r matches Some(v) ==> v == self@[point_id].value,
    {
        match self.entries.get(&point_id) {
            Some(e) => if e.fresh {
                Some(e.value.duplicate())
            } else {
                None
            },
            None => None,
        }
    }

    /// Stores `value` observed at `timestamp`, unless the point's entry is
    /// newer; returns whether the entry was stored.
    pub fn put(&mut self, point_id: i64, value: Value, timestamp: u64) -> (r: bool)
        ensures
            final(self)@ == shadow_put(old(self)@, point_id, value, timestamp),
            r == !(old(self)@.contains_key(point_id) && old(self)@[point_id].timestamp > timestamp),
    {
        let newer = match self.entries.get(&point_id) {
            Some(e) => e.timestamp > timestamp,
            None => false,
        };
        if newer {
            false
        } else {
            self.entries.insert(point_id, ShadowEntry { value, timestamp, fresh: true });
            true
        }
    }

    /// Marks a point's entry as stale, keeping its value and timestamp.
    pub fn mark_stale(&mut self, point_id: i64)
        ensures
            old(self)@.contains_key(point_id) ==> final(self)@ == old(self)@.insert(
                point_id,
                (ShadowEntry { value: old(self)@[point_id].value, timestamp: old(self)@[point_id].timestamp, fresh: false }),
            ),
            !old(self)@.contains_key(point_id) ==> final(self)@ == old(self)@,
    {
        let stale = match self.entries.get(&point_id) {
            Some(e) => Some(ShadowEntry { value: e.value.duplicate(), timestamp: e.timestamp, fresh: false }),
            None => None,
        };
        match stale {
            Some(e) => {
                self.entries.insert(point_id, e);
            },
            None => {},
        }
    }

    /// The number of points with an entry.
    pub fn len(&self) -> (r: usize)
        ensures
            r == self@.len(),
    {
        self.entries.len()
    }
}

/// An older put leaves the entry, and so what `get` returns, as it was.
pub proof fn lemma_older_put_is_noop(m: Map<i64, ShadowEntry>, id: i64, v: Value, ts: u64)
    requires
        m.contains_key(id),
        m[id].timestamp > ts,
    ensures
        shadow_put(m, id, v, ts) == m,
        shadow_put(m, id, v, ts)[id].value == m[id].value,
{
}

} // verus!
