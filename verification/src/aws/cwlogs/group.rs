//! Log groups: the record model, the ordered store, and the pagination
//! cursor over the remote group listing.
pub mod cursor;
pub mod model;
pub mod store;

pub use cursor::CwlGroupCursorError;
pub use cursor::GroupCursor;
pub use cursor::GroupsPage;
pub use cursor::GroupsRequest;
pub use model::CwlGroup;
pub use model::LogGroupRecord;
pub use model::ParseLogGroupError;
pub use store::CwlGroupStore;
