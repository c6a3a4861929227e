//! Events, actions, and the bounded bus that merges the producers' streams.
pub mod action;
pub mod bus;
pub mod event;
pub mod key;

pub use action::Action;
pub use bus::ChannelSendError;
pub use bus::EventBus;
pub use event::Event;
pub use key::Key;
