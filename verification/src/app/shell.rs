//! The shell region: three navigable resource lists and their focus state
//! machine; key and action handling live with the dispatcher.
pub mod state;
