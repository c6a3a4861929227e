//! Actions: intent values crossing the synchronous/asynchronous boundary.
use vstd::prelude::*;

use crate::aws::cwlogs::group::CwlGroup;
use crate::aws::profile::ProfileName;
use crate::preset::Preset;

verus! {

/// An intent handed to the dispatcher, either from key handling or from a
/// finished background fetch.
#[derive(Debug)]
pub enum Action {
    /// Filter the focused repository by this text.
    Search(String),
    /// Fetch one page of log groups under this profile and preset.
    RequestLogGroups(ProfileName, Option<Preset>),
    /// A page of log groups arrived.
    ReceiveLogGroups(Vec<CwlGroup>),
    /// A background fetch failed with this message.
    Error(String),
}

} // verus!
