//! The log-management listing model: record-field mapping, log groups,
//! log streams and log events, each with its store, and the pagination
//! cursors over the remote listing endpoints.
pub mod event;
pub mod group;
pub mod mapper;
pub mod stream;
