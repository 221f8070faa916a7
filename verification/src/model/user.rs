//! Users of the service.
use crate::error::{AppError, AppResult};
use crate::id::UserId;
use crate::model::role::{role_name, role_named, Role};
use crate::time::Timestamp;
use vstd::prelude::*;

verus! {

/// A registered user.
#[derive(Debug)]
pub struct User {
    pub id: UserId,
    pub name: String,
    pub email: String,
    pub role: Role,
}

/// Asks for a new user to be registered.
#[derive(Debug)]
pub struct CreateUser {
    pub name: String,
    pub email: String,
    pub password: String,
}

/// A user as the database stores it, with the role by name.
#[derive(Debug)]
pub struct UserRow {
    pub user_id: UserId,
    pub name: String,
    pub email: String,
    pub role_name: String,
    pub created_at: Timestamp,
    pub updated_at: Timestamp,
}

/// The message that a role name naming no role is reported with.
pub open spec fn unknown_role_message() -> Seq<char> {
    "Matching variant not found"@
}

/// Whether a stored row reads as a user: its role name must name a role.
pub open spec fn row_is_user(row: UserRow) -> bool {
    role_named(row.role_name@) is Some
}

/// The user that a stored row reads as, when `row_is_user(row)`.
pub open spec fn user_of_row(row: UserRow) -> User {
    User {
        id: row.user_id,
        name: row.name,
        email: row.email,
        role: role_named(row.role_name@).unwrap(),
    }
}

impl User {
    /// Reads a stored row as a user; fails with `ConversionEntityError` when the
    /// role name names no role.
    pub fn try_from_row(row: UserRow) -> (r: AppResult<User>)
        ensures
            row_is_user(row) ==> r == Ok::<User, AppError>(user_of_row(row)),
        row_is_user(row) ==> (r matches Ok(u) && u.id == row.user_id && u.name == row.name
            && u.email == row.email && role_name(u.role) == row.role_name@),
            !row_is_user(row) ==> (r matches Err(AppError::ConversionEntityError(m))
                && m@ == unknown_role_message()),
    {
        let UserRow { user_id, name, email, role_name, created_at: _, updated_at: _ } = row;
        proof {
            if row_is_user(row) {
                lemma_user_of_row_keeps_fields(row);
            }
        }
        match Role::parse(role_name.as_str()) {
            Ok(role) => Ok(User { id: user_id, name, email, role }),
            Err(_) => {
                let message = String::from_str("Matching variant not found");
                Err(AppError::ConversionEntityError(message))
            },
        }
    }
}

/// A row that reads as a user gives that user unchanged: the row's identifier,
/// name and e-mail address, and the role whose stored name the row holds,
/// whichever role that is.
pub proof fn lemma_user_of_row_keeps_fields(row: UserRow)
    requires
        row_is_user(row),
    ensures
        user_of_row(row).id == row.user_id,
        user_of_row(row).name == row.name,
        user_of_row(row).email == row.email,
        role_name(user_of_row(row).role) == row.role_name@,
{
    crate::model::role::lemma_role_named_is_injective(row.role_name@);
}

} // verus!
