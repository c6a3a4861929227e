//! Remote log-management domain: resource names, field errors, credential
//! profiles, and the log-group listing model.
pub mod arn;
pub mod cwlogs;
pub mod errors;
pub mod profile;

pub use arn::Arn;
