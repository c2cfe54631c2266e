//! A verified model of a small user-record CRUD service.
//!
//! The library holds everything the service decides: parsing and
//! printing of 24-hex-character object identifiers, an in-memory
//! record store with the same single-record atomic operations the
//! service performs (insert, find, replace, delete, list), and the
//! translation of each operation's outcome into an HTTP status and
//! body. The surrounding web server and database driver live outside
//! the library and hand it plain values.

pub mod handlers;
pub mod json;
pub mod oid;
pub mod response;
mod strutil;
pub mod store;
pub mod user;
