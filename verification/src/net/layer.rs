//! Layers wrapped around the request handlers.
pub mod request_id;
