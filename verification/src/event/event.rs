//! The one event alphabet of the main loop.
use vstd::prelude::*;

use crate::event::action::Action;
use crate::event::key::Key;

verus! {

/// An event of the merged stream: a timer tick, a keyboard event, or a
/// finished action.
#[derive(Debug)]
pub enum Event {
    Tick,
    Input(Key),
    Action(Action),
}

} // verus!
