//! The error type shared by the repositories, the extractor and the handlers.
use vstd::prelude::*;

verus! {

/// What can go wrong while serving a request. Errors raised by the database or
/// the key-value store carry the outside error's message.
#[derive(Debug)]
pub enum AppError {
    /// A query that the repository ran failed.
    SpecificOperationError(String),
    /// Opening or running a database transaction failed.
    TransactionError(String),
    /// A query that had to change a row changed none.
    NoRowsAffectedError(String),
    /// The key-value store failed.
    KeyValueStoreError(String),
    /// The requested entity does not exist.
    EntityNotFound(String),
    /// A stored row could not be read into the domain model.
    ConversionEntityError(String),
    /// The request carries no usable credentials, or they name no user.
    UnauthorizedError,
    /// The access token is not (or no longer) known.
    UnauthenticatedError,
    /// The user may not perform this operation.
    ForbiddenOperation,
}

/// The result of a fallible operation of the service.
pub type AppResult<T> = Result<T, AppError>;

} // verus!
