//! One page of a longer list.
use vstd::prelude::*;

verus! {

/// A page of items: `item` holds at most `limit` entries starting at `offset`
/// of a list whose full length is `total`.
#[derive(Debug)]
pub struct PaginatedList<T> {
    pub total: i64,
    pub limit: i64,
    pub offset: i64,
    pub item: Vec<T>,
}

impl<T> PaginatedList<T> {
    /// The items of the page, without the paging figures.
    pub fn into_inner(self) -> (items: Vec<T>)
        ensures
            items@ == self.item@,
    {
        self.item
    }
}

} // verus!
