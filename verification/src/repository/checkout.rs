//! The checkout repository: the lending history of a book.
use crate::model::checkout::Checkout;
use vstd::prelude::*;

verus! {

/// The lending history of a book: the checkout that is still open, if there is
/// one, first, then the returned checkouts in the order given.
pub open spec fn history(returned: Seq<Checkout>, unreturned: Option<Checkout>) -> Seq<Checkout> {
    match unreturned {
        Some(c) => seq![c] + returned,
        None => returned,
    }
}

/// Puts the open checkout of a book, if any, in front of its returned checkouts.
pub fn history_with_unreturned(returned: Vec<Checkout>, unreturned: Option<Checkout>) -> (h: Vec<Checkout>)
    ensures
        h@ == history(returned@, unreturned),
        unreturned is None ==> h@ == returned@,
        unreturned matches Some(c) ==> h@.len() == returned@.len() + 1 && h@[0] == c
            && h@.subrange(1, h@.len() as int) == returned@,
{
    let mut rows = returned;
    if let Some(v) = unreturned {
        rows.insert(0, v);
    }
    rows
}

/// With an open checkout, the history holds one entry more than the returned
/// checkouts, whatever their number (none included): the open one first, then
/// the returned ones in their order. Without one, it is the returned checkouts.
pub proof fn lemma_history_puts_open_checkout_first(returned: Seq<Checkout>, unreturned: Option<Checkout>)
    ensures
        unreturned is None ==> history(returned, unreturned) == returned,
        unreturned matches Some(c) ==> {
            &&& history(returned, unreturned).len() == returned.len() + 1
            &&& history(returned, unreturned)[0] == c
            &&& forall|i: int| 0 <= i < returned.len() ==> #[trigger] history(returned, unreturned)[i + 1] == returned[i]
        },
{
}

} // verus!
