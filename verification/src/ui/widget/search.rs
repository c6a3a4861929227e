//! The search box: its text buffer and input position.
use vstd::prelude::*;

use crate::text::string_of;

verus! {

/// Clamps a value into an inclusive range.
pub fn clamp(x: i128, min: i128, max: i128) -> (r: i128)
    requires
        min <= max,
    ensures
        r == spec_clamp(x as int, min as int, max as int),
{
    if x < min {
        min
    } else if x > max {
        max
    } else {
        x
    }
}

/// The value, pulled into the inclusive range.
pub open spec fn spec_clamp(x: int, min: int, max: int) -> int {
    if x < min {
        min
    } else if x > max {
        max
    } else {
        x
    }
}

/// The text under edit in the search box, with the input position the next
/// character lands on.
#[derive(Debug, Clone)]
pub struct SearchData {
    chars: Vec<char>,
    input_pos: usize,
}

impl SearchData {
    /// The buffered characters.
    pub closed spec fn spec_chars(&self) -> Seq<char> {
        self.chars@
    }

    /// The input position.
    pub closed spec fn spec_pos(&self) -> int {
        self.input_pos as int
    }

    /// The buffer invariant: the input position stays inside the text.
    pub closed spec fn wf(&self) -> bool {
        0 <= self.spec_pos() <= self.spec_chars().len()
    }

    /// Inserts a character at the input position and steps past it.
    pub fn append_char(&mut self, c: char)
        requires
            old(self).wf(),
        ensures
            final(self).wf(),
            final(self).spec_chars() == old(self).spec_chars().insert(old(self).spec_pos(), c),
            final(self).spec_pos() == old(self).spec_pos() + 1,
    {
        self.chars.insert(self.input_pos, c);
        let n = self.chars.len();
        assert(self.input_pos < n);
        self.input_pos = self.input_pos + 1;
    }

    /// Removes the character before the input position and steps back; a
    /// no-op at the start or on an empty buffer.
    pub fn delete_char(&mut self)
        requires
            old(self).wf(),
        ensures
            final(self).wf(),
            old(self).spec_chars().len() > 0 && old(self).spec_pos() >= 1
                ==> final(self).spec_chars() == old(self).spec_chars().remove(
                old(self).spec_pos() - 1,
            ) && final(self).spec_pos() == old(self).spec_pos() - 1,
            !(old(self).spec_chars().len() > 0 && old(self).spec_pos() >= 1)
                ==> (final(self).spec_chars() == old(self).spec_chars()
                && final(self).spec_pos() == old(self).spec_pos()),
    {
        if self.chars.len() > 0 && self.input_pos >= 1 {
            self.chars.remove(self.input_pos - 1);
            self.input_pos = self.input_pos - 1;
        }
    }

    /// Moves the input position by `direction`, clamped into the text; a
    /// no-op on an empty buffer.
    pub fn move_position(&mut self, direction: i32)
        requires
            old(self).wf(),
        ensures
            final(self).wf(),
            final(self).spec_chars() == old(self).spec_chars(),
            old(self).spec_chars().len() > 0 ==> final(self).spec_pos() == spec_clamp(
                old(self).spec_pos() + direction,
                0,
                old(self).spec_chars().len() as int,
            ),
            old(self).spec_chars().len() == 0 ==> final(self).spec_pos() == old(self).spec_pos(),
    {
        if self.chars.len() > 0 {
            let next = self.input_pos as i128 + direction as i128;
            let clamped = clamp(next, 0, self.chars.len() as i128);
            self.input_pos = clamped as usize;
        }
    }

    /// The buffered text as a string.
    pub fn query(&self) -> (r: String)
        ensures
            r@ == self.spec_chars(),
    {
        string_of(&self.chars)
    }
}

impl Default for SearchData {
    /// An empty search box.
    fn default() -> (r: SearchData)
        ensures
            r.wf(),
            r.spec_chars().len() == 0,
            r.spec_pos() == 0,
    {
        SearchData { chars: Vec::new(), input_pos: 0 }
    }
}

/// The rendering cursor of the search box.
#[derive(Debug, Copy, Clone, Default)]
pub struct SearchState {
    pub cursor_pos: usize,
}

} // verus!
