//! The ordered store of log streams.
use vstd::prelude::*;

use crate::aws::cwlogs::stream::model::CwlStream;
use crate::aws::cwlogs::stream::model::CwlStreamV;
use crate::collection::store::by_pair;
use crate::collection::store::spec_store_insert;
use crate::collection::store::KeyFn;
use crate::collection::store::Keyed;
use crate::collection::store::Store;
use crate::order::SortKey;
use crate::order::SortKeyV;

verus! {

/// Orders streams by creation time.
pub struct StreamTimeKey;

impl KeyFn<CwlStream> for StreamTimeKey {
    open spec fn dkey(v: CwlStreamV) -> SortKeyV {
        SortKeyV::Int(v.creation_time)
    }

    fn derived_key(&self, t: &CwlStream) -> (k: SortKey)
        ensures
            k@ == Self::dkey(t@),
    {
        SortKey::Int(t.creation_time.millis)
    }
}

/// The store of log streams, deduplicated and iterated by resource name.
pub struct CwlStreamStore {
    streams: Store<CwlStream>,
}

impl View for CwlStreamStore {
    type V = Seq<CwlStreamV>;

    closed spec fn view(&self) -> Seq<CwlStreamV> {
        self.streams@
    }
}

impl CwlStreamStore {
    /// The store invariant.
    pub closed spec fn wf(&self) -> bool {
        self.streams.wf()
    }

    /// Inserts one stream; a no-op when its resource name is already present.
    pub fn insert(&mut self, stream: CwlStream)
        requires
            old(self).wf(),
        ensures
            final(self).wf(),
            final(self)@ == spec_store_insert(
                old(self)@,
                stream@,
                |v: CwlStreamV| CwlStream::pkey(v),
            ),
    {
        self.streams.insert(stream);
    }

    /// The streams in resource-name order.
    pub fn iter(&self) -> (r: Vec<CwlStream>)
        ensures
            r@.map_values(|s: CwlStream| s@) == self@,
    {
        self.streams.iter()
    }

    /// The streams by creation time, ascending.
    pub fn order_by_creation_time_asc(&self) -> (r: Vec<CwlStream>)
        requires
            self.wf(),
        ensures
            r@.map_values(|s: CwlStream| s@).to_multiset() == self@.to_multiset(),
            vstd::relations::sorted_by(
                r@.map_values(|s: CwlStream| s@),
                by_pair(
                    |v: CwlStreamV| StreamTimeKey::dkey(v),
                    |v: CwlStreamV| CwlStream::pkey(v),
                ),
            ),
    {
        self.streams.order_by_asc(&StreamTimeKey)
    }

    /// The streams by creation time, descending.
    pub fn order_by_creation_time_desc(&self) -> (r: Vec<CwlStream>)
        requires
            self.wf(),
        ensures
            r@.map_values(|s: CwlStream| s@).to_multiset() == self@.to_multiset(),
            vstd::relations::sorted_by(
                r@.map_values(|s: CwlStream| s@).reverse(),
                by_pair(
                    |v: CwlStreamV| StreamTimeKey::dkey(v),
                    |v: CwlStreamV| CwlStream::pkey(v),
                ),
            ),
    {
        self.streams.order_by_desc(&StreamTimeKey)
    }
}

impl Default for CwlStreamStore {
    /// An empty stream store.
    fn default() -> (r: CwlStreamStore)
        ensures
            r.wf(),
            r@ == Seq::<CwlStreamV>::empty(),
    {
        CwlStreamStore { streams: Store::empty() }
    }
}

} // verus!
