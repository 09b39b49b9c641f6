//! Sell orders of land tokens.

use vstd::prelude::*;
use crate::model::shared::PaginatedApi;

verus! {

/// A page of orders.
pub struct Order {
    pub result: Vec<TheResult>,
    pub cursor: String,
}

impl PaginatedApi for Order {
    open spec fn cursor_of(&self) -> Seq<char> {
        self.cursor@
    }

    open spec fn holds_results(&self) -> bool {
        self.result@.len() > 0
    }

    fn get_cursor(&self) -> (r: String)
        ensures
            r@ == self.cursor@,
    {
        self.cursor.clone()
    }

    fn has_results(&self) -> (r: bool)
        ensures
            r == (self.result@.len() > 0),
    {
        !self.result.is_empty()
    }
}

/// A single order, as the order detail endpoint returns it.
pub struct SingleOrder {
    pub buy: Buy,
}

/// One order (`user` in the API is `wallet`).
pub struct TheResult {
    pub order_id: i32,
    pub status: String,
    pub wallet: String,
    pub sell: Sell,
    pub buy: Buy,
    pub timestamp: String,
    pub updated_timestamp: String,
}

/// What the order sells: a land token.
pub struct Sell {
    pub data: SellData,
}

/// The sold token.
pub struct SellData {
    pub token_id: Option<String>,
    pub token_address: String,
}

/// What the order asks in return (`type` in the API is `buy_currency`).
pub struct Buy {
    pub buy_currency: String,
    pub data: BuyData,
}

/// The asked amount: an integer `quantity` with `decimals` implied decimals.
pub struct BuyData {
    pub quantity: String,
    pub decimals: Option<i32>,
    pub symbol: Option<String>,
}

} // verus!
