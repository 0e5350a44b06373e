//! Request handling rules of the HTTP API: naming of stored files, parsing of
//! upload metadata, preconditions of requests and the mapping of failures to
//! responses.

pub mod health;
pub mod images;
pub mod render;
pub mod scenes;
