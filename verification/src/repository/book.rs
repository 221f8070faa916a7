//! The book repository: paging of the book list, and the check that an update
//! or a removal found its book.
use crate::database::PaginatedBookRow;
use crate::error::{AppError, AppResult};
use crate::id::BookId;
use crate::model::book::{Book, BookListOptions};
use crate::model::list::PaginatedList;
use vstd::prelude::*;

verus! {

/// The size of the whole list as a page reports it: the `total` of its first
/// row, or 0 for an empty page.
pub open spec fn page_total(rows: Seq<PaginatedBookRow>) -> i64 {
    if rows.len() == 0 {
        0
    } else {
        rows[0].total
    }
}

/// The message of the error that an update or removal of a missing book gives.
pub open spec fn no_book_affected_message() -> Seq<char> {
    "該当する書籍が見つかりません"@
}

/// The identifiers of the books on a page, in page order.
pub fn book_ids_of_page(rows: &Vec<PaginatedBookRow>) -> (ids: Vec<BookId>)
    ensures
        ids@ == rows@.map_values(|r: PaginatedBookRow| r.id),
{
    let mut ids: Vec<BookId> = Vec::new();
    let mut i: usize = 0;
    while i < rows.len()
        invariant
            i <= rows@.len(),
            ids@ == rows@.take(i as int).map_values(|r: PaginatedBookRow| r.id),
        decreases rows@.len() - i,
    {
        ids.push(rows[i].id);
        i = i + 1;
        assert(rows@.take(i as int).drop_last() =~= rows@.take(i - 1));
        assert(ids@ =~= rows@.take(i as int).map_values(|r: PaginatedBookRow| r.id));
    }
    assert(rows@.take(rows@.len() as int) =~= rows@);
    ids
}

/// The page of the book list: the books found for the page's identifiers, the
/// list's total size as the page reports it, and the requested limit and offset.
pub fn book_page(options: BookListOptions, rows: &Vec<PaginatedBookRow>, books: Vec<Book>) -> (page: PaginatedList<Book>)
    ensures
        page.total == page_total(rows@),
        rows@.len() > 0 ==> page.total == rows@[0].total,
        rows@.len() == 0 ==> page.total == 0,
        page.limit == options.limit,
        page.offset == options.offset,
        page.item@ == books@,
{
    let total: i64 = if rows.len() == 0 {
        0
    } else {
        rows[0].total
    };
    let BookListOptions { limit, offset } = options;
    PaginatedList { total, offset, limit, item: books }
}

/// An update or removal of a book succeeds when it changed a row, and otherwise
/// reports that the book was not found (no book with that identifier was
/// registered by the requesting user).
pub fn require_book_row_affected(rows_affected: u64) -> (r: AppResult<()>)
    ensures
        rows_affected >= 1 ==> r is Ok,
        rows_affected < 1 ==> (r matches Err(AppError::EntityNotFound(m)) && m@ == no_book_affected_message()),
{
    if rows_affected < 1 {
        return Err(AppError::EntityNotFound(String::from_str("該当する書籍が見つかりません")));
    }
    Ok(())
}

/// The total that a page reports is the `COUNT(*) OVER()` that its first row
/// carries, however many rows the page holds; only an empty page reports 0.
pub proof fn lemma_page_total_is_first_row_count(rows: Seq<PaginatedBookRow>)
    ensures
        rows.len() > 0 ==> page_total(rows) == rows[0].total,
        rows.len() == 0 ==> page_total(rows) == 0,
        forall|r: PaginatedBookRow| #[trigger] page_total(seq![r] + rows) == r.total,
{
    assert forall|r: PaginatedBookRow| #[trigger] page_total(seq![r] + rows) == r.total by {
        assert((seq![r] + rows)[0] == r);
    }
}

} // verus!
