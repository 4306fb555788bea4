//! Authentication routes.
pub mod session;
