//! What the HTTP handlers decide around their repository calls.
pub mod book;
pub mod health;
pub mod status;
pub mod user;
