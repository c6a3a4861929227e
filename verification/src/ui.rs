//! The state side of the user interface: selection cursors, the search box,
//! and the diagnostic panel's data. Drawing them is the rendering layer's
//! business.
pub mod widget;
