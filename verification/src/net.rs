//! Networking values shared by the server: addresses and request ids.
pub mod addr;
pub mod layer;
pub mod html;
