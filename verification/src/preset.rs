//! Named query presets: a preset couples a display name with an optional
//! log-group name prefix for the remote listing request.
use vstd::prelude::*;

use crate::collection::AsStr;
use crate::query::Query;
use crate::repository::spec_name_matches;
use crate::repository::Named;
use crate::repository::Repository;
use crate::text::spec_contains;
use crate::text::str_contains;

verus! {

/// Name of a preset.
#[derive(Debug, Clone, PartialEq, Eq)]
pub struct PresetName(String);

impl View for PresetName {
    type V = Seq<char>;

    closed spec fn view(&self) -> Seq<char> {
        self.0@
    }
}

impl PresetName {
    /// A preset name from raw text.
    pub fn from(s: &str) -> (r: PresetName)
        ensures
            r@ == s@,
    {
        PresetName(s.to_owned())
    }

    /// A copy with the same view.
    pub fn dup(&self) -> (r: PresetName)
        ensures
            r@ == self@,
    {
        PresetName(self.0.clone())
    }
}

impl AsStr for PresetName {
    open spec fn str_chars(&self) -> Seq<char> {
        self@
    }

    fn as_str(&self) -> (r: &str)
        ensures
            r@ == self.str_chars(),
    {
        self.0.as_str()
    }
}

/// Mathematical view of a preset.
pub struct PresetV {
    pub name: Seq<char>,
    pub group_name_prefix: Option<Seq<char>>,
}

/// A named query preset.
#[derive(Debug, Clone, PartialEq, Eq)]
pub struct Preset {
    pub name: PresetName,
    pub group_name_prefix: Option<String>,
}

impl View for Preset {
    type V = PresetV;

    open spec fn view(&self) -> PresetV {
        PresetV {
            name: self.name@,
            group_name_prefix: match self.group_name_prefix {
                Some(ref p) => Some(p@),
                None => None,
            },
        }
    }
}

impl Preset {
    pub fn new(name: PresetName, group_name_prefix: Option<String>) -> (r: Preset)
        ensures
            r@.name == name@,
            r@.group_name_prefix == (match group_name_prefix {
                Some(ref p) => Some::<Seq<char>>(p@),
                None => None::<Seq<char>>,
            }),
    {
        Preset { name, group_name_prefix }
    }
}

impl Default for Preset {
    /// The anonymous preset: empty name, no prefix.
    fn default() -> (r: Preset)
        ensures
            r@.name.len() == 0,
            r@.group_name_prefix is None,
    {
        Preset { name: PresetName(String::new()), group_name_prefix: None }
    }
}

impl Named for Preset {
    open spec fn display_name(v: PresetV) -> Seq<char> {
        v.name
    }

    fn name_str(&self) -> (r: &str)
        ensures
            r@ == Self::display_name(self@),
    {
        self.name.as_str()
    }

    fn dup(&self) -> (r: Self)
        ensures
            r@ == self@,
    {
        Preset {
            name: self.name.dup(),
            group_name_prefix: match &self.group_name_prefix {
                Some(p) => Some(p.clone()),
                None => None,
            },
        }
    }
}

/// The repository of presets.
pub type PresetStore = Repository<Preset>;

impl Default for Repository<Preset> {
    /// An empty preset repository under the default label.
    fn default() -> (r: PresetStore)
        ensures
            r.wf(),
            r.rows().len() == 0,
            r.spec_query() is None,
            r.spec_base() == "Presets"@,
            r.spec_label() == "Presets"@,
    {
        Repository::new(default_label())
    }
}

/// The label base of the preset repository.
pub fn default_label() -> (r: &'static str)
    ensures
        r@ == "Presets"@,
{
    "Presets"
}

/// A preset passes the query: no query, or its name contains the word.
pub fn preset_matches(preset: &Preset, query: Option<&Query>) -> (r: bool)
    ensures
        r == spec_name_matches(
            preset@,
            match query {
                Some(q) => Some(q@),
                None => None,
            },
            |v: PresetV| v.name,
        ),
{
    if let Some(q) = query {
        str_contains(preset.name.as_str(), q.word())
    } else {
        true
    }
}

} // verus!
