//! Books and the events that create, change and remove them.
use crate::id::{BookId, UserId};
use vstd::prelude::*;

verus! {

/// A book of the collection.
#[derive(Debug)]
pub struct Book {
    pub id: BookId,
    pub title: String,
    pub author: String,
    pub isbn: String,
    pub description: String,
}

/// Asks for a new book to be registered.
#[derive(Debug)]
pub struct CreateBook {
    pub title: String,
    pub author: String,
    pub isbn: String,
    pub description: String,
}

/// Asks for a book's data to be replaced; only the user who registered the book may.
#[derive(Debug)]
pub struct UpdateBook {
    pub book_id: BookId,
    pub title: String,
    pub author: String,
    pub isbn: String,
    pub description: String,
    pub requested_user: UserId,
}

/// Asks for a book to be removed; only the user who registered the book may.
#[derive(Debug)]
pub struct DeleteBook {
    pub book_id: BookId,
    pub requested_user: UserId,
}

/// Which page of the book list to show.
#[derive(Debug, Clone, Copy)]
pub struct BookListOptions {
    pub limit: i64,
    pub offset: i64,
}

/// The body of a request that registers a book.
#[derive(Debug)]
pub struct CreateBookRequest {
    pub title: String,
    pub author: String,
    pub isbn: String,
    pub description: String,
}

/// The body of a request that replaces a book's data.
#[derive(Debug)]
pub struct UpdateBookRequest {
    pub title: String,
    pub author: String,
    pub isbn: String,
    pub description: String,
}

impl From<CreateBookRequest> for CreateBook {
    /// The request's fields, unchanged, as a creation event.
    fn from(value: CreateBookRequest) -> (event: CreateBook) {
        let CreateBookRequest { title, author, isbn, description } = value;
        CreateBook { title, author, isbn, description }
    }
}

impl vstd::std_specs::convert::FromSpecImpl<CreateBookRequest> for CreateBook {
    open spec fn obeys_from_spec() -> bool {
        true
    }

    open spec fn from_spec(value: CreateBookRequest) -> CreateBook {
        CreateBook {
            title: value.title,
            author: value.author,
            isbn: value.isbn,
            description: value.description,
        }
    }
}

} // verus!
