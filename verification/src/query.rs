//! The active search query of a repository.
use vstd::prelude::*;

verus! {

/// A non-empty search word.
#[derive(Debug)]
pub struct Query {
    word: String,
}

impl View for Query {
    type V = Seq<char>;

    closed spec fn view(&self) -> Seq<char> {
        self.word@
    }
}

impl Query {
    /// The query word.
    pub fn word(&self) -> (r: &str)
        ensures
            r@ == self@,
    {
        self.word.as_str()
    }

    /// The query word, as an owned string.
    pub fn into_word(self) -> (r: String)
        ensures
            r@ == self@,
    {
        self.word
    }
}

/// A query from raw text: empty text means no query.
pub fn query_from(s: String) -> (r: Option<Query>)
    ensures
        s@.len() == 0 ==> r is None,
        s@.len() > 0 ==> (r matches Some(q) && q@ == s@),
{
    if s.as_str().is_empty() {
        None
    } else {
        Some(Query { word: s })
    }
}

/// The view of an optional query.
pub open spec fn query_view(q: Option<Query>) -> Option<Seq<char>> {
    match q {
        None => None,
        Some(qq) => Some(qq@),
    }
}

} // verus!
