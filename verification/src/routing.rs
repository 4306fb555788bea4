//! The decisions made while answering HTTP requests, apart from the I/O
//! around them.
pub mod sql;
pub mod api;
pub mod auth;
