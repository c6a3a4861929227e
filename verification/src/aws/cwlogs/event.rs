//! Log events: the record model and the ordered store. Event browsing is an
//! inert placeholder; only the model and the store exist.
pub mod model;
pub mod store;

pub use model::CwlEvent;
pub use model::EventId;
pub use model::FilteredLogEventRecord;
pub use model::ParseLogEventError;
pub use store::CwlEventStore;
