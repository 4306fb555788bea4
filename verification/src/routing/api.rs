//! The API routes.
pub mod sec;
pub mod fs;
pub mod user;
