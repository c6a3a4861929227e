//! Widget state modules.
pub mod debug;
pub mod groups;
pub mod presets;
pub mod profiles;
pub mod search;
pub mod stateful;
