//! Resource names: the primary key of every remote resource.
use vstd::prelude::*;

verus! {

/// A resource name.
#[derive(Debug, Clone, PartialEq, Eq, Hash)]
pub struct Arn(String);

impl View for Arn {
    type V = Seq<char>;

    closed spec fn view(&self) -> Seq<char> {
        self.0@
    }
}

impl Arn {
    /// A resource name from raw text.
    pub fn from(s: &str) -> (r: Arn)
        ensures
            r@ == s@,
    {
        Arn(s.to_owned())
    }

    /// A resource name from an owned string.
    pub fn from_string(s: String) -> (r: Arn)
        ensures
            r@ == s@,
    {
        Arn(s)
    }

    /// The name's text.
    pub fn str(&self) -> (r: &str)
        ensures
            r@ == self@,
    {
        self.0.as_str()
    }

    /// A copy with the same view.
    pub fn dup(&self) -> (r: Arn)
        ensures
            r@ == self@,
    {
        Arn(self.0.clone())
    }
}

} // verus!
