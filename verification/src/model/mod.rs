//! The domain model.
pub mod auth;
pub mod book;
pub mod checkout;
pub mod list;
pub mod role;
pub mod user;
