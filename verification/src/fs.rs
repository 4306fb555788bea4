//! File system items and their storage backends.
pub mod backend;
pub mod traits;
pub mod item;
