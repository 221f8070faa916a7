//! Rows as the book queries return them.
use crate::id::BookId;
use vstd::prelude::*;

verus! {

/// A stored book.
#[derive(Debug)]
pub struct BookRow {
    pub book_id: BookId,
    pub title: String,
    pub author: String,
    pub description: String,
}

/// One row of a page of the book list: a book's identifier, and the number of
/// books in the whole list (the same on every row of a page).
#[derive(Debug, Clone, Copy)]
pub struct PaginatedBookRow {
    pub total: i64,
    pub id: BookId,
}

} // verus!
