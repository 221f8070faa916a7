//! Verified core of a small book-management web service: the domain model,
//! the decisions its HTTP handlers, request extractor and repositories make
//! around their database and key-value store calls, and the service registry.
pub mod database;
pub mod env;
pub mod error;
pub mod extractor;
pub mod handler;
pub mod id;
pub mod model;
pub mod kv_store;
pub mod registry;
pub mod repository;
pub mod time;
