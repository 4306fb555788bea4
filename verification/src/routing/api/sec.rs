//! Security routes: secrets and roles.
pub mod secrets;
pub mod roles;
