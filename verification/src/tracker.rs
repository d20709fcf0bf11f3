//! Object-lifetime tracking for the upstream estimator's event stream. Each
//! event names an object's birth, update or death; the registry remembers
//! when each live object was first seen, so a death can report how long the
//! object lived. The event transport and the clock live outside the library;
//! this module makes every decision: which kind of event a parsed message
//! is, and what it does to the registry.

use vstd::prelude::*;

use crate::json::{value_as_i64, value_get_field};
use std::collections::HashMap;

verus! {

broadcast use vstd::std_specs::hash::group_hash_axioms;

/// What probing a message for one event kind can find.
#[derive(Clone, Copy, Debug, PartialEq, Eq, Structural)]
pub enum KindProbe {
    /// The kind's key is absent.
    AbsentKind,
    /// The kind's key is present but carries no usable object identifier.
    BadKind,
    /// The kind's key is present with this object identifier.
    Id(i64),
}

/// One event of the upstream stream, reduced to what the registry needs.
#[derive(Clone, Copy, Debug, PartialEq, Eq, Structural)]
pub enum TrackerEvent {
    Birth(i64),
    Update(i64),
    Death(i64),
    /// Anything else, including a recognized kind with a malformed payload.
    Unknown,
}

/// The event a message denotes, given what probing found for each kind, in
/// the stream's precedence order: a recognized kind with a malformed payload
/// makes the whole message unusable rather than falling through to a later
/// kind.
pub open spec fn event_of_probes(birth: KindProbe, update: KindProbe, death: KindProbe)
    -> TrackerEvent {
    match birth {
        KindProbe::Id(id) => TrackerEvent::Birth(id),
        KindProbe::BadKind => TrackerEvent::Unknown,
        KindProbe::AbsentKind => match update {
            KindProbe::Id(id) => TrackerEvent::Update(id),
            KindProbe::BadKind => TrackerEvent::Unknown,
            KindProbe::AbsentKind => match death {
                KindProbe::Id(id) => TrackerEvent::Death(id),
                KindProbe::BadKind => TrackerEvent::Unknown,
                KindProbe::AbsentKind => TrackerEvent::Unknown,
            },
        },
    }
}

/// The verified event decision: exactly [`event_of_probes`].
pub fn tracker_event_from_probes(birth: KindProbe, update: KindProbe, death: KindProbe) -> (e:
    TrackerEvent)
    ensures
        e == event_of_probes(birth, update, death),
{
    match birth {
        KindProbe::Id(id) => {
            return TrackerEvent::Birth(id);
        },
        KindProbe::BadKind => {
            return TrackerEvent::Unknown;
        },
        KindProbe::AbsentKind => {},
    }
    match update {
        KindProbe::Id(id) => {
            return TrackerEvent::Update(id);
        },
        KindProbe::BadKind => {
            return TrackerEvent::Unknown;
        },
        KindProbe::AbsentKind => {},
    }
    match death {
        KindProbe::Id(id) => TrackerEvent::Death(id),
        KindProbe::BadKind => TrackerEvent::Unknown,
        KindProbe::AbsentKind => TrackerEvent::Unknown,
    }
}

/// Probe a message body for an event kind whose payload is an object with an
/// `obj_id` field (births and updates).
fn probe_kind_with_obj_id(body: &serde_json::Value, kind: &str) -> KindProbe {
    match value_get_field(body, kind) {
        None => KindProbe::AbsentKind,
        Some(payload) => match value_get_field(payload, "obj_id") {
            None => KindProbe::BadKind,
            Some(id) => match value_as_i64(id) {
                Some(n) => KindProbe::Id(n),
                None => KindProbe::BadKind,
            },
        },
    }
}

/// Probe a message body for an event kind whose payload is the object
/// identifier itself (deaths).
fn probe_kind_bare_id(body: &serde_json::Value, kind: &str) -> KindProbe {
    match value_get_field(body, kind) {
        None => KindProbe::AbsentKind,
        Some(payload) => match value_as_i64(payload) {
            Some(n) => KindProbe::Id(n),
            None => KindProbe::BadKind,
        },
    }
}

/// Classify one parsed message of the event stream: its `msg` object names a
/// `Birth` or `Update` (each carrying an `obj_id`) or a `Death` (carrying
/// the identifier directly).
pub fn classify_tracker_message(v: &serde_json::Value) -> TrackerEvent {
    match value_get_field(v, "msg") {
        None => TrackerEvent::Unknown,
        Some(body) => {
            let birth = probe_kind_with_obj_id(body, "Birth");
            let update = probe_kind_with_obj_id(body, "Update");
            let death = probe_kind_bare_id(body, "Death");
            tracker_event_from_probes(birth, update, death)
        },
    }
}

/// When each live object was first seen, keyed by object identifier.
pub struct ObjectRegistry {
    entries: HashMap<i64, u64>,
}

impl View for ObjectRegistry {
    type V = Map<i64, u64>;

    closed spec fn view(&self) -> Map<i64, u64> {
        self.entries@
    }
}

impl ObjectRegistry {
    /// An empty registry.
    pub fn new() -> (r: Self)
        ensures
            r@ == Map::<i64, u64>::empty(),
    {
        ObjectRegistry { entries: HashMap::new() }
    }

    /// Whether the object is currently live.
    pub fn contains(&self, id: i64) -> (r: bool)
        ensures
            r == self@.contains_key(id),
    {
        self.entries.contains_key(&id)
    }

    /// A birth registers the object as first seen now, replacing any earlier
    /// record of the same identifier.
    pub fn birth(&mut self, id: i64, now: u64)
        ensures
            final(self)@ == old(self)@.insert(id, now),
    {
        self.entries.insert(id, now);
    }

    /// An update registers the object only if it was not seen before: an
    /// already-live object keeps its original first-seen time.
    pub fn update(&mut self, id: i64, now: u64)
        ensures
            final(self)@ == if old(self)@.contains_key(id) {
                old(self)@
            } else {
                old(self)@.insert(id, now)
            },
    {
        if !self.entries.contains_key(&id) {
            self.entries.insert(id, now);
        } else {
            proof {
                assert(final(self)@ =~= old(self)@);
            }
        }
    }

    /// A death removes the object and reports when it was first seen, or
    /// reports nothing for an object that was never live.
    pub fn death(&mut self, id: i64) -> (first_seen: Option<u64>)
        ensures
            old(self)@.contains_key(id) ==> first_seen == Some(old(self)@[id]) && final(self)@
                == old(self)@.remove(id),
            !old(self)@.contains_key(id) ==> first_seen is None && final(self)@ == old(self)@,
    {
        self.entries.remove(&id)
    }
}

/// Apply one event to the registry: births and updates record the time the
/// object was first seen; a death removes the object and yields that time,
/// so the caller can report how long the object lived; anything else changes
/// nothing.
pub fn apply_tracker_event(reg: &mut ObjectRegistry, event: &TrackerEvent, now: u64) -> (first_seen:
    Option<u64>)
    ensures
        event matches TrackerEvent::Birth(id) ==> final(reg)@ == old(reg)@.insert(*id, now)
            && first_seen is None,
        event matches TrackerEvent::Update(id) ==> first_seen is None && final(reg)@ == if old(
            reg,
        )@.contains_key(*id) {
            old(reg)@
        } else {
            old(reg)@.insert(*id, now)
        },
        event matches TrackerEvent::Death(id) ==> {
            &&& old(reg)@.contains_key(*id) ==> first_seen == Some(old(reg)@[*id]) && final(reg)@
                == old(reg)@.remove(*id)
            &&& !old(reg)@.contains_key(*id) ==> first_seen is None && final(reg)@ == old(reg)@
        },
        (event is Unknown) ==> first_seen is None && final(reg)@ == old(reg)@,
{
    match event {
        TrackerEvent::Birth(id) => {
            reg.birth(*id, now);
            None
        },
        TrackerEvent::Update(id) => {
            reg.update(*id, now);
            None
        },
        TrackerEvent::Death(id) => reg.death(*id),
        TrackerEvent::Unknown => None,
    }
}

} // verus!
