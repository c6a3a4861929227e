//! Core logic of an interactive log-group browser: ordered resource stores,
//! query-filtered repositories, pagination cursors, focus navigation, and the
//! action dispatcher that ties them together. Terminal rendering, keyboard
//! decoding and the remote listing transport live outside this crate's
//! verified surface.
use vstd::prelude::*;

pub mod app;
pub mod aws;
pub mod collection;
pub mod event;
pub mod order;
pub mod preset;
pub mod query;
pub mod repository;
pub mod session;
pub mod size;
pub mod text;
pub mod ui;

verus! {

} // verus!
