//! A query-filterable repository over a store of named resources.
//!
//! Each inserted value gets a monotonically increasing sequence number that
//! provides the stable default ordering and nothing else: deduplication is
//! governed solely by the value's display name. An optional substring query
//! filters iteration, and a display label reflecting the active query is
//! recomputed eagerly on `set_query` so reads stay cheap.
use vstd::prelude::*;

use crate::collection::store::has_pkey;
use crate::collection::store::lemma_insert_props;
use crate::collection::store::spec_store_insert;
use crate::collection::store::Keyed;
use crate::collection::store::Store;
use crate::collection::Length;
use crate::order::key_lt;
use crate::order::SortKey;
use crate::order::SortKeyV;
use crate::query::query_view;
use crate::query::Query;
use crate::text::spec_contains;
use crate::text::str_contains;
use crate::text::str_eq;
use vstd::string::StringExecFns;

verus! {

/// A resource with a display name, as the repository shows and filters it.
pub trait Named: View + Sized {
    /// Display name of a value's view.
    spec fn display_name(v: Self::V) -> Seq<char>;

    /// Executable display name.
    fn name_str(&self) -> (r: &str)
        ensures
            r@ == Self::display_name(self@),
    ;

    /// A copy with the same view.
    fn dup(&self) -> (r: Self)
        ensures
            r@ == self@,
    ;
}

/// A stored value together with its insertion sequence number.
pub struct Entry<T> {
    pub seq: usize,
    pub value: T,
}

/// Mathematical view of an entry.
pub struct EntryV<V> {
    pub seq: int,
    pub value: V,
}

impl<T: Named> View for Entry<T> {
    type V = EntryV<T::V>;

    open spec fn view(&self) -> EntryV<T::V> {
        EntryV { seq: self.seq as int, value: self.value@ }
    }
}

impl<T: Named> Keyed for Entry<T> {
    open spec fn pkey(v: EntryV<T::V>) -> SortKeyV {
        SortKeyV::Int(v.seq)
    }

    fn primary_key(&self) -> (k: SortKey)
        ensures
            k@ == Self::pkey(self@),
    {
        SortKey::Uint(self.seq as u128)
    }

    fn dup(&self) -> (r: Self)
        ensures
            r@ == self@,
    {
        Entry { seq: self.seq, value: self.value.dup() }
    }
}

/// Some entry carries a value with this display name.
pub open spec fn has_name<V>(rows: Seq<EntryV<V>>, n: Seq<char>, name: spec_fn(V) -> Seq<char>) -> bool {
    exists|i: int| 0 <= i < rows.len() && name(#[trigger] rows[i].value) == n
}

/// A value passes the active query: no query, or the name contains the word.
pub open spec fn spec_name_matches<V>(
    v: V,
    q: Option<Seq<char>>,
    name: spec_fn(V) -> Seq<char>,
) -> bool {
    match q {
        None => true,
        Some(w) => spec_contains(name(v), w),
    }
}

/// The display label for a base name and an active query.
pub open spec fn spec_label_text(base: Seq<char>, q: Option<Seq<char>>) -> Seq<char> {
    match q {
        None => base,
        Some(w) => base + " (\""@ + w + "\")"@,
    }
}

/// What `insert` does to the rows: a no-op when the name is already present,
/// otherwise appended with the next sequence number.
pub open spec fn spec_repo_insert<V>(
    rows: Seq<EntryV<V>>,
    v: V,
    name: spec_fn(V) -> Seq<char>,
) -> Seq<EntryV<V>> {
    if has_name(rows, name(v), name) {
        rows
    } else {
        rows.push(EntryV { seq: rows.len() as int + 1, value: v })
    }
}

/// What `extend` does to the rows: the values inserted in order.
pub open spec fn spec_repo_extend<V>(
    rows: Seq<EntryV<V>>,
    vs: Seq<V>,
    name: spec_fn(V) -> Seq<char>,
) -> Seq<EntryV<V>>
    decreases vs.len(),
{
    if vs.len() == 0 {
        rows
    } else {
        spec_repo_insert(spec_repo_extend(rows, vs.drop_last(), name), vs.last(), name)
    }
}

/// A query-filterable, labelled facade over a store of named values.
pub struct Repository<T: Named> {
    entries: Store<Entry<T>>,
    query: Option<Query>,
    base: String,
    label: String,
}

impl<T: Named> Repository<T> {
    /// The rows: entries in insertion order.
    pub closed spec fn rows(&self) -> Seq<EntryV<T::V>> {
        self.entries@
    }

    /// The stored values in insertion order.
    pub open spec fn values(&self) -> Seq<T::V> {
        self.rows().map_values(|e: EntryV<T::V>| e.value)
    }

    /// The active query.
    pub closed spec fn spec_query(&self) -> Option<Seq<char>> {
        query_view(self.query)
    }

    /// The label's base text.
    pub closed spec fn spec_base(&self) -> Seq<char> {
        self.base@
    }

    /// The current display label.
    pub closed spec fn spec_label(&self) -> Seq<char> {
        self.label@
    }

    /// The repository invariant: sequence numbers count up from one, and the
    /// label reflects the active query.
    pub closed spec fn wf(&self) -> bool {
        &&& self.entries.wf()
        &&& forall|i: int| 0 <= i < self.rows().len() ==> (#[trigger] self.rows()[i]).seq == i + 1
        &&& self.spec_label() == spec_label_text(self.spec_base(), self.spec_query())
    }

    /// The values that pass the active query, in insertion order.
    pub open spec fn filtered(&self) -> Seq<T::V> {
        self.values().filter(
            |v: T::V| spec_name_matches(v, self.spec_query(), |x: T::V| T::display_name(x)),
        )
    }

    /// An empty repository labelled with the given base text.
    pub fn new(base: &str) -> (r: Repository<T>)
        ensures
            r.wf(),
            r.rows() == Seq::<EntryV<T::V>>::empty(),
            r.spec_query() is None,
            r.spec_base() == base@,
            r.spec_label() == base@,
    {
        Repository {
            entries: Store::empty(),
            query: None,
            base: base.to_owned(),
            label: base.to_owned(),
        }
    }

    /// Inserts a value: a no-op when one of the same display name is already
    /// present, otherwise appended under the next sequence number.
    pub fn insert(&mut self, value: T)
        requires
            old(self).wf(),
            old(self).rows().len() < usize::MAX,
        ensures
            final(self).wf(),
            final(self).rows() == spec_repo_insert(
                old(self).rows(),
                value@,
                |x: T::V| T::display_name(x),
            ),
            final(self).spec_query() == old(self).spec_query(),
            final(self).spec_base() == old(self).spec_base(),
            final(self).spec_label() == old(self).spec_label(),
    {
        let n = self.entries.len();
        let mut i: usize = 0;
        while i < n
            invariant
                0 <= i <= n,
                n == self.rows().len(),
                self == old(self),
                old(self).wf(),
                old(self).rows().len() < usize::MAX,
                forall|k: int|
                    0 <= k < i ==> T::display_name((#[trigger] self.rows()[k]).value)
                        != T::display_name(value@),
            decreases n - i,
        {
            let row = self.entries.get(i);
            proof {
                assert(row@ == self.rows()[i as int]);
                assert(row@.value == row.value@);
            }
            if str_eq(row.value.name_str(), value.name_str()) {
                proof {
                    let name = |x: T::V| T::display_name(x);
                    assert(name(self.rows()[i as int].value) == name(value@));
                    assert(has_name(self.rows(), name(value@), name));
                }
                return ;
            }
            i = i + 1;
        }
        proof {
            let name = |x: T::V| T::display_name(x);
            if has_name(self.rows(), name(value@), name) {
                let k = choose|k: int|
                    0 <= k < self.rows().len() && name((#[trigger] self.rows()[k]).value) == name(
                        value@,
                    );
                assert(T::display_name(self.rows()[k].value) == T::display_name(value@));
                assert(false);
            }
        }
        let entry = Entry { seq: n + 1, value };
        proof {
            let rows = self.rows();
            let pk = |v: EntryV<T::V>| <Entry<T> as Keyed>::pkey(v);
            assert(forall|k: int|
                0 <= k < rows.len() ==> key_lt(pk(#[trigger] rows[k]), pk(entry@)));
            lemma_insert_props(rows, entry@, pk, rows.len() as int);
            assert(spec_store_insert(rows, entry@, pk) == rows.insert(rows.len() as int, entry@));
            assert(rows.insert(rows.len() as int, entry@) =~= rows.push(entry@));
        }
        self.entries.insert(entry);
    }

    /// Inserts each value in order.
    pub fn extend(&mut self, values: &Vec<T>)
        requires
            old(self).wf(),
            old(self).rows().len() + values@.len() < usize::MAX,
        ensures
            final(self).wf(),
            final(self).rows() == spec_repo_extend(
                old(self).rows(),
                values@.map_values(|t: T| t@),
                |x: T::V| T::display_name(x),
            ),
            final(self).spec_query() == old(self).spec_query(),
            final(self).spec_base() == old(self).spec_base(),
            final(self).spec_label() == old(self).spec_label(),
    {
        let ghost vs = values@.map_values(|t: T| t@);
        let n = values.len();
        let mut i: usize = 0;
        proof {
            assert(vs.take(0) =~= Seq::<T::V>::empty());
        }
        while i < n
            invariant
                0 <= i <= n,
                n == values@.len(),
                vs == values@.map_values(|t: T| t@),
                self.wf(),
                self.rows() == spec_repo_extend(
                    old(self).rows(),
                    vs.take(i as int),
                    |x: T::V| T::display_name(x),
                ),
                self.rows().len() <= old(self).rows().len() + i,
                old(self).rows().len() + n < usize::MAX,
                self.spec_query() == old(self).spec_query(),
                self.spec_base() == old(self).spec_base(),
                self.spec_label() == old(self).spec_label(),
            decreases n - i,
        {
            let value = values[i].dup();
            proof {
                assert(value@ == vs[i as int]);
            }
            self.insert(value);
            i = i + 1;
            proof {
                assert(vs.take(i as int).drop_last() =~= vs.take(i - 1));
                assert(vs.take(i as int).last() == vs[i - 1]);
            }
        }
        proof {
            assert(vs.take(n as int) =~= vs);
        }
    }

    /// Replaces the active query and recomputes the label.
    pub fn set_query(&mut self, query: Option<Query>)
        requires
            old(self).wf(),
        ensures
            final(self).wf(),
            final(self).rows() == old(self).rows(),
            final(self).spec_base() == old(self).spec_base(),
            final(self).spec_query() == query_view(query),
            final(self).spec_label() == spec_label_text(old(self).spec_base(), query_view(query)),
    {
        self.label = match &query {
            Some(q) => {
                let l = self.base.clone().concat(" (\"").concat(q.word()).concat("\")");
                proof {
                    assert(l@ =~= self.base@ + " (\""@ + q@ + "\")"@);
                }
                l
            },
            None => self.base.clone(),
        };
        self.query = query;
        proof {
            reveal_strlit(" (\"");
            reveal_strlit("\")");
            assert(self.entries.wf());
            assert(self.rows() == old(self).rows());
            assert forall|i: int|
                0 <= i < self.rows().len() implies (#[trigger] self.rows()[i]).seq == i + 1 by {
                assert(old(self).rows()[i].seq == i + 1);
            }
            assert(self.spec_label() == spec_label_text(self.spec_base(), self.spec_query()));
            assert(self.wf());
        }
    }

    /// The current display label.
    pub fn label(&self) -> (r: &str)
        ensures
            r@ == self.spec_label(),
    {
        self.label.as_str()
    }

    /// The values that pass the active query, in insertion order.
    pub fn iter(&self) -> (r: Vec<T>)
        ensures
            r@.map_values(|t: T| t@) == self.filtered(),
    {
        broadcast use vstd::prelude::Seq::lemma_filter_push;

        let ghost pred = |v: T::V|
            spec_name_matches(v, self.spec_query(), |x: T::V| T::display_name(x));
        let n = self.entries.len();
        let mut r: Vec<T> = Vec::new();
        let mut i: usize = 0;
        proof {
            assert(self.values().take(0) =~= Seq::<T::V>::empty());
            assert(Seq::<T::V>::empty().filter(pred) =~= Seq::<T::V>::empty()) by {
                reveal(Seq::filter);
            }
            assert(r@.map_values(|t: T| t@) =~= Seq::<T::V>::empty());
        }
        while i < n
            invariant
                0 <= i <= n,
                n == self.rows().len(),
                pred == (|v: T::V|
                    spec_name_matches(v, self.spec_query(), |x: T::V| T::display_name(x))),
                r@.map_values(|t: T| t@) == self.values().take(i as int).filter(pred),
            decreases n - i,
        {
            let row = self.entries.get(i);
            proof {
                assert(row@ == self.rows()[i as int]);
                assert(row@.value == row.value@);
            }
            let keep = match &self.query {
                None => true,
                Some(q) => str_contains(row.value.name_str(), q.word()),
            };
            proof {
                assert(self.values()[i as int] == self.rows()[i as int].value);
                assert(keep == pred(self.values()[i as int]));
                assert(self.values().take(i + 1) =~= self.values().take(i as int).push(
                    self.values()[i as int],
                ));
            }
            let ghost old_map = r@.map_values(|t: T| t@);
            if keep {
                r.push(row.value.dup());
                proof {
                    assert(r@.map_values(|t: T| t@) =~= old_map.push(self.values()[i as int]));
                }
            }
            i = i + 1;
            proof {
                self.values().take(i - 1).lemma_filter_push(self.values()[i - 1], pred);
                assert(self.values().take(i as int).filter(pred) == if pred(self.values()[i - 1]) {
                    self.values().take(i - 1).filter(pred).push(self.values()[i - 1])
                } else {
                    self.values().take(i - 1).filter(pred)
                });
            }
        }
        proof {
            assert(self.values().take(n as int) =~= self.values());
        }
        r
    }

    /// The value at a position of the filtered view.
    pub fn nth(&self, i: usize) -> (r: Option<T>)
        ensures
            i < self.filtered().len() ==> (r matches Some(v) && v@ == self.filtered()[i as int]),
            i >= self.filtered().len() ==> r is None,
    {
        let all = self.iter();
        if i < all.len() {
            proof {
                assert(all@[i as int]@ == all@.map_values(|t: T| t@)[i as int]);
            }
            Some(all[i].dup())
        } else {
            None
        }
    }
}

impl<T: Named> Length for Repository<T> {
    open spec fn spec_len(&self) -> nat {
        self.filtered().len()
    }

    fn len(&self) -> (r: usize)
        ensures
            r == self.spec_len(),
    {
        let all = self.iter();
        proof {
            assert(all@.map_values(|t: T| t@).len() == all@.len());
        }
        all.len()
    }
}

} // verus!
