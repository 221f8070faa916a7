//! Checkouts: the lending of a book to a user.
use crate::id::{BookId, CheckoutId, UserId};
use crate::time::Timestamp;
use vstd::prelude::*;

verus! {

/// One lending of a book. `returned_at` is `None` while the book is still out.
#[derive(Debug)]
pub struct Checkout {
    pub id: CheckoutId,
    pub checked_out_by: Timestamp,
    pub checked_out_at: UserId,
    pub returned_at: Option<Timestamp>,
    pub book: CheckoutBook,
}

/// The book of a checkout.
#[derive(Debug)]
pub struct CheckoutBook {
    pub book_id: BookId,
    pub title: String,
    pub author: String,
    pub isbn: String,
}

} // verus!
