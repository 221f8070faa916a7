//! Health checks.
use crate::handler::status::{INTERNAL_SERVER_ERROR, OK};
use vstd::prelude::*;

verus! {

/// The service answers: always 200 OK.
pub fn health_check() -> (status: u16)
    ensures
        status == OK,
{
    OK
}

/// The database answers: 200 OK when its check passed, and 500 otherwise.
pub fn health_check_db(db_reachable: bool) -> (status: u16)
    ensures
        status == (if db_reachable { OK } else { INTERNAL_SERVER_ERROR }),
{
    if db_reachable {
        OK
    } else {
        INTERNAL_SERVER_ERROR
    }
}

} // verus!
