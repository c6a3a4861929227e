//! Credential profiles: profile names parsed out of a shared configuration
//! text, held in a query-filterable repository.
//!
//! Locating and reading the configuration file is the caller's business;
//! this module turns its lines into the profile repository.
use vstd::prelude::*;

use crate::collection::AsStr;
use crate::query::Query;
use crate::repository::spec_name_matches;
use crate::repository::spec_repo_extend;
use crate::repository::EntryV;
use crate::repository::Named;
use crate::repository::Repository;
use crate::text::chars_of;
use crate::text::chars_start_with;
use crate::text::chars_trim;
use crate::text::spec_contains;
use crate::text::spec_starts_with;
use crate::text::spec_trim;
use crate::text::str_contains;

verus! {

/// Why the profile repository could not be loaded.
#[derive(Debug)]
pub enum ProfileStoreError {
    /// The configuration file could not be read; holds the reader's message.
    Io(String),
    /// No home directory was found, so there is no configuration path.
    NoHomeDirectory,
}

/// Name of a credential profile.
#[derive(Debug, Clone, PartialEq, Eq)]
pub struct ProfileName(String);

impl View for ProfileName {
    type V = Seq<char>;

    closed spec fn view(&self) -> Seq<char> {
        self.0@
    }
}

impl ProfileName {
    /// A profile name from raw text.
    pub fn from(s: &str) -> (r: ProfileName)
        ensures
            r@ == s@,
    {
        ProfileName(s.to_owned())
    }

    /// A profile name from an owned string.
    pub fn from_string(s: String) -> (r: ProfileName)
        ensures
            r@ == s@,
    {
        ProfileName(s)
    }

    /// A copy with the same view.
    pub fn dup(&self) -> (r: ProfileName)
        ensures
            r@ == self@,
    {
        ProfileName(self.0.clone())
    }
}

impl AsStr for ProfileName {
    open spec fn str_chars(&self) -> Seq<char> {
        self@
    }

    fn as_str(&self) -> (r: &str)
        ensures
            r@ == self.str_chars(),
    {
        self.0.as_str()
    }
}

impl Named for ProfileName {
    open spec fn display_name(v: Seq<char>) -> Seq<char> {
        v
    }

    fn name_str(&self) -> (r: &str)
        ensures
            r@ == Self::display_name(self@),
    {
        self.0.as_str()
    }

    fn dup(&self) -> (r: Self)
        ensures
            r@ == self@,
    {
        ProfileName(self.0.clone())
    }
}

/// The repository of profile names.
pub type ProfileStore = Repository<ProfileName>;

impl Default for Repository<ProfileName> {
    /// An empty profile repository under the default label.
    fn default() -> (r: ProfileStore)
        ensures
            r.wf(),
            r.rows().len() == 0,
            r.spec_query() is None,
            r.spec_base() == "Profiles"@,
            r.spec_label() == "Profiles"@,
    {
        Repository::new(default_label())
    }
}

/// The label base of the profile repository.
pub fn default_label() -> (r: &'static str)
    ensures
        r@ == "Profiles"@,
{
    "Profiles"
}

/// A profile passes the query: no query, or its name contains the word.
pub fn profile_matches(profile: &ProfileName, query: Option<&Query>) -> (r: bool)
    ensures
        r == spec_name_matches(
            profile@,
            match query {
                Some(q) => Some(q@),
                None => None,
            },
            |v: Seq<char>| v,
        ),
{
    if let Some(q) = query {
        str_contains(profile.as_str(), q.word())
    } else {
        true
    }
}

/// The profile name declared by a configuration line, if the line is a
/// section header: brackets around a name, an optional `profile ` prefix,
/// whitespace tolerated on either side of everything.
pub open spec fn spec_section_name(line: Seq<char>) -> Option<Seq<char>> {
    let t = spec_trim(line);
    if t.len() >= 2 && t[0] == '[' && t.last() == ']' {
        let inner = spec_trim(t.subrange(1, t.len() - 1));
        let raw = if spec_starts_with(inner, "profile "@) {
            inner.skip("profile "@.len() as int)
        } else {
            inner
        };
        Some(spec_trim(raw))
    } else {
        None
    }
}

/// Parses one configuration line into the profile name it declares, if any.
pub fn section_name(line: &str) -> (r: Option<ProfileName>)
    ensures
        match r {
            Some(p) => spec_section_name(line@) == Some(p@),
            None => spec_section_name(line@) is None,
        },
{
    let cs = chars_of(line);
    let t = chars_trim(&cs);
    let tn = t.len();
    if tn >= 2 && t[0] == '[' && t[tn - 1] == ']' {
        let mut body: Vec<char> = Vec::new();
        proof {
            assert(body@ =~= t@.subrange(1, 1));
        }
        let mut i: usize = 1;
        while i < tn - 1
            invariant
                1 <= i <= tn - 1,
                tn == t@.len(),
                tn >= 2,
                body@ == t@.subrange(1, i as int),
            decreases tn - i,
        {
            body.push(t[i]);
            i = i + 1;
            assert(body@ =~= t@.subrange(1, i as int));
        }
        let inner = chars_trim(&body);
        let prefix = chars_of("profile ");
        let raw: Vec<char> = if chars_start_with(&inner, &prefix) {
            let mut rest: Vec<char> = Vec::new();
            let pn = prefix.len();
            let inn = inner.len();
            let mut j: usize = pn;
            while j < inn
                invariant
                    pn <= j <= inn,
                    inn == inner@.len(),
                    pn <= inn,
                    rest@ == inner@.subrange(pn as int, j as int),
                decreases inn - j,
            {
                rest.push(inner[j]);
                j = j + 1;
                assert(rest@ =~= inner@.subrange(pn as int, j as int));
            }
            proof {
                assert(rest@ =~= inner@.skip(pn as int));
            }
            rest
        } else {
            inner
        };
        let name = chars_trim(&raw);
        let s = crate::text::string_of(&name);
        Some(ProfileName::from_string(s))
    } else {
        None
    }
}

/// The profile names declared by a sequence of configuration lines, in order.
pub open spec fn spec_profile_names(lines: Seq<Seq<char>>) -> Seq<Seq<char>>
    decreases lines.len(),
{
    if lines.len() == 0 {
        Seq::empty()
    } else {
        spec_profile_names(lines.drop_last()) + (match spec_section_name(lines.last()) {
            Some(n) => seq![n],
            None => Seq::empty(),
        })
    }
}

/// Builds the profile repository out of configuration lines: each section
/// header contributes its profile name, first occurrence of a name winning.
pub fn from_lines(lines: &Vec<String>) -> (r: ProfileStore)
    ensures
        r.wf(),
        r.spec_query() is None,
        r.spec_base() == "Profiles"@,
        r.spec_label() == "Profiles"@,
        r.rows() == spec_repo_extend(
            Seq::<EntryV<Seq<char>>>::empty(),
            spec_profile_names(lines@.map_values(|l: String| l@)),
            |v: Seq<char>| v,
        ),
{
    let ghost ls = lines@.map_values(|l: String| l@);
    let mut store = ProfileStore::default();
    let n = lines.len();
    let mut i: usize = 0;
    proof {
        assert(ls.take(0) =~= Seq::<Seq<char>>::empty());
        assert(store.rows() =~= Seq::<EntryV<Seq<char>>>::empty());
    }
    while i < n
        invariant
            0 <= i <= n,
            n == lines@.len(),
            ls == lines@.map_values(|l: String| l@),
            store.wf(),
            store.spec_query() is None,
            store.spec_base() == "Profiles"@,
            store.spec_label() == "Profiles"@,
            store.rows() == spec_repo_extend(
                Seq::<EntryV<Seq<char>>>::empty(),
                spec_profile_names(ls.take(i as int)),
                |v: Seq<char>| v,
            ),
            store.rows().len() <= spec_profile_names(ls.take(i as int)).len(),
            spec_profile_names(ls.take(i as int)).len() <= i,
        decreases n - i,
    {
        let ghost names = spec_profile_names(ls.take(i as int));
        proof {
            assert((|x: Seq<char>| ProfileName::display_name(x)) =~= (|v: Seq<char>| v));
        }
        if let Some(name) = section_name(lines[i].as_str()) {
            store.insert(name);
            proof {
                let names2 = spec_profile_names(ls.take(i + 1));
                assert(ls.take(i + 1).drop_last() =~= ls.take(i as int));
                assert(ls.take(i + 1).last() == ls[i as int]);
                assert(names2 =~= names.push(name@));
                assert(names2.drop_last() =~= names);
                assert(names2.last() == name@);
            }
        } else {
            proof {
                let names2 = spec_profile_names(ls.take(i + 1));
                assert(ls.take(i + 1).drop_last() =~= ls.take(i as int));
                assert(ls.take(i + 1).last() == ls[i as int]);
                assert(names2 =~= names);
            }
        }
        i = i + 1;
    }
    proof {
        assert(ls.take(n as int) =~= ls);
    }
    store
}

} // verus!
