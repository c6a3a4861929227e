//! Cyclic selection over a list of items.
//!
//! Navigation moves the selected index forward or backward modulo the item
//! count; an empty list collapses any navigation to no selection, so no
//! out-of-range index is ever selected.
use vstd::prelude::*;

verus! {

/// A holder of an optional selected index.
pub trait SelectState {
    /// The selected index.
    spec fn spec_selected(&self) -> Option<usize>;

    /// Reads the selected index.
    fn selected(&self) -> (r: Option<usize>)
        ensures
            r == self.spec_selected(),
    ;

    /// Replaces the selected index.
    fn select(&mut self, selected: Option<usize>)
        ensures
            final(self).spec_selected() == selected,
    ;
}

/// The plain selection cursor of a list or table.
#[derive(Debug, Copy, Clone, PartialEq, Eq, Structural)]
pub struct SelectionState {
    selected: Option<usize>,
}

impl Default for SelectionState {
    /// No selection.
    fn default() -> (r: SelectionState)
        ensures
            r.spec_selected() is None,
    {
        SelectionState { selected: None }
    }
}

impl SelectState for SelectionState {
    closed spec fn spec_selected(&self) -> Option<usize> {
        self.selected
    }

    fn selected(&self) -> (r: Option<usize>)
        ensures
            r == self.spec_selected(),
    {
        self.selected
    }

    fn select(&mut self, selected: Option<usize>)
        ensures
            final(self).spec_selected() == selected,
    {
        self.selected = selected;
    }
}

/// Where navigation by `direction` lands from the current selection: nothing
/// over an empty list, else one step with cyclic wrap; absent a selection it
/// lands on the first item.
pub open spec fn spec_select(cur: Option<usize>, length: int, direction: int) -> Option<usize> {
    if length > 0 {
        let next = match cur {
            Some(i) => i + direction,
            None => 0,
        };
        if next < 0 {
            Some(((length + next) % length) as usize)
        } else if next >= length {
            Some((next % length) as usize)
        } else {
            Some(next as usize)
        }
    } else {
        None
    }
}

/// One navigation step never selects an index at or past the length.
pub proof fn lemma_select_in_range(cur: Option<usize>, length: int, direction: int)
    requires
        direction == 1 || direction == -1,
        0 <= length,
    ensures
        length == 0 ==> spec_select(cur, length, direction) is None,
        spec_select(cur, length, direction) matches Some(i) ==> i < length,
{
}

/// Moves the selection one step forward, cyclically.
pub fn select_next<S: SelectState>(state: &mut S, length: usize)
    ensures
        final(state).spec_selected() == spec_select(old(state).spec_selected(), length as int, 1),
{
    select(state, length, 1);
}

/// Moves the selection one step backward, cyclically.
pub fn select_previous<S: SelectState>(state: &mut S, length: usize)
    ensures
        final(state).spec_selected() == spec_select(old(state).spec_selected(), length as int, -1),
{
    select(state, length, -1);
}

/// Clears the selection.
pub fn unselect<S: SelectState>(state: &mut S)
    ensures
        final(state).spec_selected() is None,
{
    state.select(None);
}

/// Moves the selection one step in the given direction, cyclically.
pub fn select<S: SelectState>(state: &mut S, length: usize, direction: i32)
    requires
        direction == 1 || direction == -1,
    ensures
        final(state).spec_selected() == spec_select(
            old(state).spec_selected(),
            length as int,
            direction as int,
        ),
{
    let selected: Option<usize> = if length > 0 {
        let next: i128 = match state.selected() {
            Some(i) => i as i128 + direction as i128,
            None => 0,
        };
        let len = length as i128;
        let landed: i128 = if next < 0 {
            (len + next) % len
        } else if next >= len {
            next % len
        } else {
            next
        };
        Some(landed as usize)
    } else {
        None
    };
    state.select(selected);
}

} // verus!
