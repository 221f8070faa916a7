//! The book handlers.
use crate::error::{AppError, AppResult};
use crate::handler::status::{CREATED, NO_CONTENT, OK};
use crate::extractor::AuthorizedUser;
use crate::id::{BookId, UserId};
use crate::model::book::{Book, CreateBook, CreateBookRequest, DeleteBook, UpdateBook, UpdateBookRequest};
use vstd::prelude::*;

verus! {

/// The message of the error that asking for an unknown book gives.
pub open spec fn book_not_found_message() -> Seq<char> {
    "The specific book was not found"@
}

/// What registering a book asks of the repository: the request's fields as a
/// creation event, and the requesting user as the book's owner.
pub fn register_book_event(user: &AuthorizedUser, req: CreateBookRequest) -> (r: (CreateBook, UserId))
    ensures
        r.0.title == req.title,
        r.0.author == req.author,
        r.0.isbn == req.isbn,
        r.0.description == req.description,
        r.1 == user.user.id,
{
    let event = CreateBook::from(req);
    (event, user.id())
}

/// What updating a book asks of the repository: the book addressed by the
/// path, the request's fields, and the requesting user, whom the repository
/// holds to be the book's owner.
pub fn update_book_event(book_id: BookId, user: &AuthorizedUser, req: UpdateBookRequest) -> (e: UpdateBook)
    ensures
        e.book_id == book_id,
        e.title == req.title,
        e.author == req.author,
        e.isbn == req.isbn,
        e.description == req.description,
        e.requested_user == user.user.id,
{
    let UpdateBookRequest { title, author, isbn, description } = req;
    UpdateBook { book_id, title, author, isbn, description, requested_user: user.id() }
}

/// What removing a book asks of the repository: the book addressed by the path
/// and the requesting user, whom the repository holds to be the book's owner.
pub fn delete_book_event(book_id: BookId, user: &AuthorizedUser) -> (e: DeleteBook)
    ensures
        e.book_id == book_id,
        e.requested_user == user.user.id,
{
    DeleteBook { book_id, requested_user: user.id() }
}

/// Registering a book answers 201 Created when the insert succeeded, and
/// passes the repository's error on otherwise.
pub fn register_book_response(outcome: AppResult<()>) -> (r: AppResult<u16>)
    ensures
        outcome is Ok ==> r == Ok::<u16, AppError>(CREATED),
        outcome is Err ==> r == Err::<u16, AppError>(outcome->Err_0),
{
    match outcome {
        Ok(()) => Ok(CREATED),
        Err(e) => Err(e),
    }
}

/// Updating a book answers 200 OK when the update succeeded, and passes the
/// repository's error on otherwise.
pub fn update_book_response(outcome: AppResult<()>) -> (r: AppResult<u16>)
    ensures
        outcome is Ok ==> r == Ok::<u16, AppError>(OK),
        outcome is Err ==> r == Err::<u16, AppError>(outcome->Err_0),
{
    match outcome {
        Ok(()) => Ok(OK),
        Err(e) => Err(e),
    }
}

/// Removing a book answers 204 No Content when the removal succeeded, and
/// passes the repository's error on otherwise.
pub fn delete_book_response(outcome: AppResult<()>) -> (r: AppResult<u16>)
    ensures
        outcome is Ok ==> r == Ok::<u16, AppError>(NO_CONTENT),
        outcome is Err ==> r == Err::<u16, AppError>(outcome->Err_0),
{
    match outcome {
        Ok(()) => Ok(NO_CONTENT),
        Err(e) => Err(e),
    }
}

/// Showing one book: the book when the lookup found it, `EntityNotFound` when
/// it found none, and the lookup's error when it failed.
pub fn book_or_not_found(lookup: AppResult<Option<Book>>) -> (r: AppResult<Book>)
    ensures
        lookup matches Ok(Some(b)) ==> r == Ok::<Book, AppError>(b),
        lookup matches Ok(None) ==> (r matches Err(AppError::EntityNotFound(m)) && m@ == book_not_found_message()),
        lookup is Err ==> r == Err::<Book, AppError>(lookup->Err_0),
{
    match lookup {
        Ok(Some(book)) => Ok(book),
        Ok(None) => Err(AppError::EntityNotFound(String::from_str("The specific book was not found"))),
        Err(e) => Err(e),
    }
}

} // verus!
