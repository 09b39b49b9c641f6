//! What every page of a cursor-paginated API response offers.

use vstd::prelude::*;

verus! {

/// A page of a cursor-paginated API response.
pub trait PaginatedApi {
    /// The cursor that the page hands out for the next request.
    spec fn cursor_of(&self) -> Seq<char>;

    /// Whether the page holds at least one record.
    spec fn holds_results(&self) -> bool;

    /// The cursor of this page.
    fn get_cursor(&self) -> (r: String)
        ensures
            r@ == self.cursor_of(),
    ;

    /// Whether this page holds any record.
    fn has_results(&self) -> (r: bool)
        ensures
            r == self.holds_results(),
    ;
}

} // verus!
