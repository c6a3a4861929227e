//! Field-level errors of remote record parsing.
use vstd::prelude::*;

use vstd::string::StringExecFns;

verus! {

/// A required field was absent from a remote record.
#[derive(Debug, Clone, PartialEq, Eq)]
pub struct MissingFieldError {
    field_name: &'static str,
}

impl View for MissingFieldError {
    type V = Seq<char>;

    closed spec fn view(&self) -> Seq<char> {
        self.field_name@
    }
}

impl MissingFieldError {
    pub fn new(field_name: &'static str) -> (r: MissingFieldError)
        ensures
            r@ == field_name@,
    {
        MissingFieldError { field_name }
    }

    /// The name of the missing field.
    pub fn field_name(&self) -> (r: &'static str)
        ensures
            r@ == self@,
    {
        self.field_name
    }

    /// The error's display text.
    pub fn message(&self) -> (r: String)
        ensures
            r@ == "field `"@ + self@ + "` is missing"@,
    {
        let m = String::new().concat("field `").concat(self.field_name).concat("` is missing");
        proof {
            assert(m@ =~= "field `"@ + self@ + "` is missing"@);
        }
        m
    }
}

} // verus!
