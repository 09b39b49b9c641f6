//! Trades between two orders.

use vstd::prelude::*;
use crate::model::shared::PaginatedApi;

verus! {

/// A page of trades.
pub struct Trade {
    pub result: Vec<TheResult>,
    pub cursor: String,
}

impl PaginatedApi for Trade {
    open spec fn cursor_of(&self) -> Seq<char> {
        self.cursor@
    }

    open spec fn holds_results(&self) -> bool {
        self.result@.len() > 0
    }

    fn get_cursor(&self) -> (r: String)
        ensures
            r@ == self.cursor@,
    {
        self.cursor.clone()
    }

    fn has_results(&self) -> (r: bool)
        ensures
            r == (self.result@.len() > 0),
    {
        !self.result.is_empty()
    }
}

/// One trade: the buying order (`a` in the API) and the selling one (`b`).
pub struct TheResult {
    pub buyer: Buyer,
    pub seller: Seller,
}

/// The buying side of a trade.
pub struct Buyer {
    pub order_id: i32,
}

/// The selling side of a trade.
pub struct Seller {
    pub order_id: i32,
}

} // verus!
