//! The header region: the search box and its state.
pub mod state;
