//! Collection traits shared by the resource stores.
use vstd::prelude::*;

pub mod store;

verus! {

/// A collection with a length.
pub trait Length {
    spec fn spec_len(&self) -> nat;

    fn len(&self) -> (r: usize)
        ensures
            r == self.spec_len(),
    ;
}

impl<T> Length for Vec<T> {
    open spec fn spec_len(&self) -> nat {
        self@.len()
    }

    fn len(&self) -> (r: usize)
        ensures
            r == self.spec_len(),
    {
        Vec::len(self)
    }
}

impl<T> Length for std::collections::VecDeque<T> {
    open spec fn spec_len(&self) -> nat {
        self@.len()
    }

    fn len(&self) -> (r: usize)
        ensures
            r == self.spec_len(),
    {
        std::collections::VecDeque::len(self)
    }
}

/// A value with a borrowed string form.
pub trait AsStr {
    spec fn str_chars(&self) -> Seq<char>;

    fn as_str(&self) -> (r: &str)
        ensures
            r@ == self.str_chars(),
    ;
}

impl AsStr for String {
    open spec fn str_chars(&self) -> Seq<char> {
        self@
    }

    fn as_str(&self) -> (r: &str)
        ensures
            r@ == self.str_chars(),
    {
        String::as_str(self)
    }
}

} // verus!
