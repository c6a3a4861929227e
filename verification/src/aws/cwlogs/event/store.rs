//! The ordered store of log events.
use vstd::prelude::*;

use crate::aws::cwlogs::event::model::CwlEvent;
use crate::aws::cwlogs::event::model::CwlEventV;
use crate::collection::store::by_pair;
use crate::collection::store::spec_store_insert;
use crate::collection::store::KeyFn;
use crate::collection::store::Keyed;
use crate::collection::store::Store;
use crate::order::SortKey;
use crate::order::SortKeyV;

verus! {

/// Orders events by the time they happened, ties broken by identifier.
pub struct EventTimeKey;

impl KeyFn<CwlEvent> for EventTimeKey {
    open spec fn dkey(v: CwlEventV) -> SortKeyV {
        SortKeyV::Int(v.event_time)
    }

    fn derived_key(&self, t: &CwlEvent) -> (k: SortKey)
        ensures
            k@ == Self::dkey(t@),
    {
        SortKey::Int(t.event_time.millis)
    }
}

/// The store of log events, deduplicated and iterated by identifier.
pub struct CwlEventStore {
    events: Store<CwlEvent>,
}

impl View for CwlEventStore {
    type V = Seq<CwlEventV>;

    closed spec fn view(&self) -> Seq<CwlEventV> {
        self.events@
    }
}

impl CwlEventStore {
    /// The store invariant.
    pub closed spec fn wf(&self) -> bool {
        self.events.wf()
    }

    /// Inserts one event; a no-op when its identifier is already present.
    pub fn insert(&mut self, event: CwlEvent)
        requires
            old(self).wf(),
        ensures
            final(self).wf(),
            final(self)@ == spec_store_insert(old(self)@, event@, |v: CwlEventV| CwlEvent::pkey(v)),
    {
        self.events.insert(event);
    }

    /// The events in identifier order.
    pub fn iter(&self) -> (r: Vec<CwlEvent>)
        ensures
            r@.map_values(|e: CwlEvent| e@) == self@,
    {
        self.events.iter()
    }

    /// The events by time, ascending.
    pub fn order_by_asc(&self) -> (r: Vec<CwlEvent>)
        requires
            self.wf(),
        ensures
            r@.map_values(|e: CwlEvent| e@).to_multiset() == self@.to_multiset(),
            vstd::relations::sorted_by(
                r@.map_values(|e: CwlEvent| e@),
                by_pair(|v: CwlEventV| EventTimeKey::dkey(v), |v: CwlEventV| CwlEvent::pkey(v)),
            ),
    {
        self.events.order_by_asc(&EventTimeKey)
    }

    /// The events by time, descending.
    pub fn order_by_desc(&self) -> (r: Vec<CwlEvent>)
        requires
            self.wf(),
        ensures
            r@.map_values(|e: CwlEvent| e@).to_multiset() == self@.to_multiset(),
            vstd::relations::sorted_by(
                r@.map_values(|e: CwlEvent| e@).reverse(),
                by_pair(|v: CwlEventV| EventTimeKey::dkey(v), |v: CwlEventV| CwlEvent::pkey(v)),
            ),
    {
        self.events.order_by_desc(&EventTimeKey)
    }
}

impl Default for CwlEventStore {
    /// An empty event store.
    fn default() -> (r: CwlEventStore)
        ensures
            r.wf(),
            r@ == Seq::<CwlEventV>::empty(),
    {
        CwlEventStore { events: Store::empty() }
    }
}

} // verus!
