//! The ordered store of log groups, with its derived orderings.
use vstd::prelude::*;

use crate::aws::cwlogs::group::model::CwlGroup;
use crate::aws::cwlogs::group::model::CwlGroupV;
use crate::collection::store::by_pair;
use crate::collection::store::spec_store_extend;
use crate::collection::store::spec_store_insert;
use crate::collection::store::KeyFn;
use crate::collection::store::Keyed;
use crate::collection::store::Store;
use crate::collection::Length;
use crate::order::SortKey;
use crate::order::SortKeyV;
use crate::text::chars_of;

verus! {

/// Orders groups by display name.
pub struct GroupNameKey;

impl KeyFn<CwlGroup> for GroupNameKey {
    open spec fn dkey(v: CwlGroupV) -> SortKeyV {
        SortKeyV::Text(v.group_name)
    }

    fn derived_key(&self, t: &CwlGroup) -> (k: SortKey)
        ensures
            k@ == Self::dkey(t@),
    {
        SortKey::Text(chars_of(t.group_name.as_str()))
    }
}

/// Orders groups by creation time.
pub struct GroupTimeKey;

impl KeyFn<CwlGroup> for GroupTimeKey {
    open spec fn dkey(v: CwlGroupV) -> SortKeyV {
        SortKeyV::Int(v.creation_time)
    }

    fn derived_key(&self, t: &CwlGroup) -> (k: SortKey)
        ensures
            k@ == Self::dkey(t@),
    {
        SortKey::Int(t.creation_time.millis)
    }
}

/// Orders groups by stored byte count.
pub struct GroupSizeKey;

impl KeyFn<CwlGroup> for GroupSizeKey {
    open spec fn dkey(v: CwlGroupV) -> SortKeyV {
        SortKeyV::Int(v.stored)
    }

    fn derived_key(&self, t: &CwlGroup) -> (k: SortKey)
        ensures
            k@ == Self::dkey(t@),
    {
        SortKey::Uint(t.stored.bytes())
    }
}

/// The store of log groups, deduplicated and iterated by resource name.
pub struct CwlGroupStore {
    groups: Store<CwlGroup>,
}

impl View for CwlGroupStore {
    type V = Seq<CwlGroupV>;

    closed spec fn view(&self) -> Seq<CwlGroupV> {
        self.groups@
    }
}

impl CwlGroupStore {
    /// The store invariant.
    pub closed spec fn wf(&self) -> bool {
        self.groups.wf()
    }

    /// A store over the given groups, first occurrence of a resource name
    /// winning.
    pub fn new(groups: Vec<CwlGroup>) -> (r: CwlGroupStore)
        ensures
            r.wf(),
            r@ == spec_store_extend(
                Seq::<CwlGroupV>::empty(),
                groups@.map_values(|g: CwlGroup| g@),
                |v: CwlGroupV| CwlGroup::pkey(v),
            ),
    {
        CwlGroupStore { groups: Store::new(groups) }
    }

    /// Removes every group.
    pub fn clear(&mut self)
        ensures
            final(self).wf(),
            final(self)@ == Seq::<CwlGroupV>::empty(),
    {
        self.groups.clear();
    }

    /// Inserts one group; a no-op when its resource name is already present.
    pub fn insert(&mut self, group: CwlGroup)
        requires
            old(self).wf(),
        ensures
            final(self).wf(),
            final(self)@ == spec_store_insert(old(self)@, group@, |v: CwlGroupV| CwlGroup::pkey(v)),
    {
        self.groups.insert(group);
    }

    /// Inserts each group in order.
    pub fn extend(&mut self, groups: &Vec<CwlGroup>)
        requires
            old(self).wf(),
        ensures
            final(self).wf(),
            final(self)@ == spec_store_extend(
                old(self)@,
                groups@.map_values(|g: CwlGroup| g@),
                |v: CwlGroupV| CwlGroup::pkey(v),
            ),
    {
        self.groups.extend(groups);
    }

    /// The groups in resource-name order.
    pub fn iter(&self) -> (r: Vec<CwlGroup>)
        ensures
            r@.map_values(|g: CwlGroup| g@) == self@,
    {
        self.groups.iter()
    }

    /// The groups by display name, ascending.
    pub fn order_by_name_asc(&self) -> (r: Vec<CwlGroup>)
        requires
            self.wf(),
        ensures
            r@.map_values(|g: CwlGroup| g@).to_multiset() == self@.to_multiset(),
            vstd::relations::sorted_by(
                r@.map_values(|g: CwlGroup| g@),
                by_pair(
                    |v: CwlGroupV| GroupNameKey::dkey(v),
                    |v: CwlGroupV| CwlGroup::pkey(v),
                ),
            ),
    {
        self.groups.order_by_asc_ref(&GroupNameKey)
    }

    /// The groups by creation time, ascending.
    pub fn order_by_creation_time_asc(&self) -> (r: Vec<CwlGroup>)
        requires
            self.wf(),
        ensures
            r@.map_values(|g: CwlGroup| g@).to_multiset() == self@.to_multiset(),
            vstd::relations::sorted_by(
                r@.map_values(|g: CwlGroup| g@),
                by_pair(
                    |v: CwlGroupV| GroupTimeKey::dkey(v),
                    |v: CwlGroupV| CwlGroup::pkey(v),
                ),
            ),
    {
        self.groups.order_by_asc(&GroupTimeKey)
    }

    /// The groups by creation time, descending.
    pub fn order_by_creation_time_desc(&self) -> (r: Vec<CwlGroup>)
        requires
            self.wf(),
        ensures
            r@.map_values(|g: CwlGroup| g@).to_multiset() == self@.to_multiset(),
            vstd::relations::sorted_by(
                r@.map_values(|g: CwlGroup| g@).reverse(),
                by_pair(
                    |v: CwlGroupV| GroupTimeKey::dkey(v),
                    |v: CwlGroupV| CwlGroup::pkey(v),
                ),
            ),
    {
        self.groups.order_by_desc(&GroupTimeKey)
    }

    /// The groups by stored size, ascending.
    pub fn order_by_size_asc(&self) -> (r: Vec<CwlGroup>)
        requires
            self.wf(),
        ensures
            r@.map_values(|g: CwlGroup| g@).to_multiset() == self@.to_multiset(),
            vstd::relations::sorted_by(
                r@.map_values(|g: CwlGroup| g@),
                by_pair(
                    |v: CwlGroupV| GroupSizeKey::dkey(v),
                    |v: CwlGroupV| CwlGroup::pkey(v),
                ),
            ),
    {
        self.groups.order_by_asc(&GroupSizeKey)
    }

    /// The groups by stored size, descending.
    pub fn order_by_size_desc(&self) -> (r: Vec<CwlGroup>)
        requires
            self.wf(),
        ensures
            r@.map_values(|g: CwlGroup| g@).to_multiset() == self@.to_multiset(),
            vstd::relations::sorted_by(
                r@.map_values(|g: CwlGroup| g@).reverse(),
                by_pair(
                    |v: CwlGroupV| GroupSizeKey::dkey(v),
                    |v: CwlGroupV| CwlGroup::pkey(v),
                ),
            ),
    {
        self.groups.order_by_desc(&GroupSizeKey)
    }
}

impl Default for CwlGroupStore {
    /// An empty group store.
    fn default() -> (r: CwlGroupStore)
        ensures
            r.wf(),
            r@ == Seq::<CwlGroupV>::empty(),
    {
        CwlGroupStore { groups: Store::empty() }
    }
}

impl Length for CwlGroupStore {
    open spec fn spec_len(&self) -> nat {
        self@.len()
    }

    fn len(&self) -> (r: usize)
        ensures
            r == self.spec_len(),
    {
        self.groups.len()
    }
}

} // verus!
