//! Verified core of a small blog server that counts likes of posts.
//!
//! The library holds the server's error model and how errors are answered,
//! the rules that record a like against the posts table, and the records
//! that the server reads and writes. The HTTP server, the database and the
//! configuration files are driven by the program around it.

pub mod errors;
pub mod like_handler;
pub mod models;
pub mod posts;
pub mod settings;
