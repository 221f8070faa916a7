//! The HTTP status codes that the handlers answer with.
use vstd::prelude::*;

verus! {

/// 200 OK.
pub const OK: u16 = 200;

/// 201 Created.
pub const CREATED: u16 = 201;

/// 204 No Content.
pub const NO_CONTENT: u16 = 204;

/// 500 Internal Server Error.
pub const INTERNAL_SERVER_ERROR: u16 = 500;

} // verus!
