//! The user on whose behalf a request is made, and how a request's bearer
//! token leads to that user.
use crate::error::{AppError, AppResult};
use crate::id::{uuid_parsed, UserId};
use crate::model::auth::AccessToken;
use crate::model::role::Role;
use crate::model::user::User;
use vstd::prelude::*;

verus! {

/// A request's user, once its access token has been checked.
#[derive(Debug)]
pub struct AuthorizedUser {
    pub access_token: AccessToken,
    pub user: User,
}

impl AuthorizedUser {
    /// The user's identifier.
    pub fn id(&self) -> (id: UserId)
        ensures
            id == self.user.id,
    {
        self.user.id
    }

    /// Whether the user is an administrator.
    pub fn id_admin(&self) -> (admin: bool)
        ensures
            admin == (self.user.role == Role::ADMIN),
    {
        self.user.role == Role::ADMIN
    }
}

/// First step of authorization: the bearer token of the `Authorization` header
/// (`None` when the header is missing or is not a bearer credential) becomes the
/// access token; without one the request is unauthorized.
pub fn access_token_from_bearer(bearer: Option<String>) -> (r: AppResult<AccessToken>)
    ensures
        bearer matches Some(t) ==> (r matches Ok(a) && a.0 == t),
        bearer is None ==> r matches Err(AppError::UnauthorizedError),
{
    match bearer {
        Some(token) => Ok(AccessToken(token)),
        None => Err(AppError::UnauthorizedError),
    }
}

/// The user identifier that the key-value store holds for a token, read from
/// the text it is stored as: none when the store holds nothing for the token,
/// and a conversion error when the text spells no UUID.
pub fn stored_user_id(stored: Option<String>) -> (r: AppResult<Option<UserId>>)
    ensures
        stored is None ==> r == Ok::<Option<UserId>, AppError>(None),
        stored matches Some(text) ==> match uuid_parsed(text@) {
            Ok(u) => r == Ok::<Option<UserId>, AppError>(Some(UserId(u))),
            Err(e) => r matches Err(AppError::ConversionEntityError(m))
                && vstd::string::to_string_from_display_ensures::<uuid::Error>(&e, m),
        },
{
    match stored {
        Some(text) => {
            let id = UserId::parse(text.as_str())?;
            Ok(Some(id))
        },
        None => Ok(None),
    }
}

/// Second step: the user identifier that the key-value store holds for the
/// token. A failed lookup passes its error on; a token that the store does not
/// know leaves the request unauthenticated.
pub fn user_id_from_lookup(lookup: AppResult<Option<UserId>>) -> (r: AppResult<UserId>)
    ensures
        lookup matches Ok(Some(id)) ==> r == Ok::<UserId, AppError>(id),
        lookup matches Ok(None) ==> r matches Err(AppError::UnauthenticatedError),
        lookup is Err ==> r == Err::<UserId, AppError>(lookup->Err_0),
{
    match lookup {
        Ok(Some(id)) => Ok(id),
        Ok(None) => Err(AppError::UnauthenticatedError),
        Err(e) => Err(e),
    }
}

/// Last step: the user found for that identifier, with the token, is the
/// request's user. A failed lookup passes its error on; no such user leaves the
/// request unauthorized.
pub fn authorized_user_from_lookup(access_token: AccessToken, lookup: AppResult<Option<User>>) -> (r: AppResult<AuthorizedUser>)
    ensures
        lookup matches Ok(Some(u)) ==> r == Ok::<AuthorizedUser, AppError>(AuthorizedUser { access_token, user: u }),
        lookup matches Ok(None) ==> r matches Err(AppError::UnauthorizedError),
        lookup is Err ==> r == Err::<AuthorizedUser, AppError>(lookup->Err_0),
{
    match lookup {
        Ok(Some(user)) => Ok(AuthorizedUser { access_token, user }),
        Ok(None) => Err(AppError::UnauthorizedError),
        Err(e) => Err(e),
    }
}

} // verus!
