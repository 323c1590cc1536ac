//! An in-memory listing of short text posts and the request decisions built on it:
//! the ordered post collection, path identifier parsing, and the mapping from
//! request outcomes to HTTP replies.
pub mod collection;
pub mod handlers;
pub mod ident;
pub mod laws;
pub mod post;
pub mod reply;
