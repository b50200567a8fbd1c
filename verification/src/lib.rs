//! Weekly digest of a repository's merged pull requests.
//!
//! The crate decides which pull requests belong in the digest of the week and
//! renders them, together with the repository's star count, into the text of
//! one chat message. It performs no network or file access of its own.

pub mod decimal;
pub mod decode;
pub mod endpoints;
pub mod json;
pub mod record;
pub mod render;
pub mod select;
pub mod time;
