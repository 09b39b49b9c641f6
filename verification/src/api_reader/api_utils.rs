//! Paging through a cursor-paginated endpoint, keeping every page that hands
//! out a cursor.

use vstd::prelude::*;
use crate::model::shared::PaginatedApi;

verus! {

/// The page that a response yields for further paging: the parsed page when
/// its cursor is not empty; `None` (which ends the paging) when the cursor is
/// empty or the response could not be read.
pub open spec fn kept_page<T: PaginatedApi>(response: Option<T>) -> Option<T> {
    match response {
        Some(page) => if page.cursor_of().len() > 0 {
            Some(page)
        } else {
            None
        },
        None => None,
    }
}

/// Keeps the parsed page (`None` when the response could not be read) when it
/// hands out a cursor.
pub fn fetch_and_get_result<T: PaginatedApi>(response: Option<T>) -> (r: Option<T>)
    ensures
        r == kept_page(response),
        r is Some <==> (response is Some && response->0.cursor_of().len() > 0),
        r is Some ==> r == response,
{
    match response {
        Some(page) => {
            let cursor = page.get_cursor();
            if !cursor.as_str().is_empty() {
                Some(page)
            } else {
                None
            }
        },
        None => None,
    }
}

/// A page is kept exactly when it was read and hands out a non-empty cursor,
/// and a kept page is the page itself.
pub proof fn lemma_kept_iff_cursor<T: PaginatedApi>(response: Option<T>)
    ensures
        kept_page(response) is Some <==> (response is Some && response->0.cursor_of().len() > 0),
        kept_page(response) is Some ==> kept_page(response) == response,
{
}

} // verus!
