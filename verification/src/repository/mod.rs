//! What the repositories decide around their queries.
pub mod book;
pub mod checkout;
pub mod user;
