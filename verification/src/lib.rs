//! A file server's core logic: configuration merging, path handling, error
//! values, storage backends, request ids, background job scheduling and the
//! decision logic behind the HTTP handlers.
pub mod text;
pub mod path;
pub mod error;
pub mod net;
pub mod config;
pub mod fs;
pub mod routing;
pub mod jobs;
