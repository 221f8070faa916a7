//! The user handlers.
use crate::error::{AppError, AppResult};
use crate::extractor::AuthorizedUser;
use crate::model::role::Role;
use vstd::prelude::*;

verus! {

/// Listing, registering and removing users and changing a user's role are for
/// administrators only: anyone else is refused with `ForbiddenOperation`.
pub fn require_admin(user: &AuthorizedUser) -> (r: AppResult<()>)
    ensures
        user.user.role == Role::ADMIN ==> r is Ok,
        user.user.role != Role::ADMIN ==> r matches Err(AppError::ForbiddenOperation),
{
    if !user.id_admin() {
        return Err(AppError::ForbiddenOperation);
    }
    Ok(())
}

} // verus!
