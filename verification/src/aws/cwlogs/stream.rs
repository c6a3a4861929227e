//! Log streams: the record model and the ordered store. Stream browsing is
//! an inert placeholder; only the model and the store exist.
pub mod model;
pub mod store;

pub use model::CwlStream;
pub use model::LogStreamRecord;
pub use model::ParseLogStreamError;
pub use store::CwlStreamStore;
