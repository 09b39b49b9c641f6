//! Transfers of land tokens between wallets.

use vstd::prelude::*;
use crate::model::shared::PaginatedApi;

verus! {

/// A page of transfers.
pub struct Transfer {
    pub result: Vec<TheResult>,
    pub cursor: String,
}

impl PaginatedApi for Transfer {
    open spec fn cursor_of(&self) -> Seq<char> {
        self.cursor@
    }

    open spec fn holds_results(&self) -> bool {
        self.result@.len() > 0
    }

    fn get_cursor(&self) -> (r: String)
        ensures
            r@ == self.cursor@,
    {
        self.cursor.clone()
    }

    fn has_results(&self) -> (r: bool)
        ensures
            r == (self.result@.len() > 0),
    {
        !self.result.is_empty()
    }
}

/// One transfer (`user` and `receiver` in the API are `wallet_from` and
/// `wallet_to`).
pub struct TheResult {
    pub transaction_id: i32,
    pub status: String,
    pub wallet_from: String,
    pub wallet_to: String,
    pub token: Token,
    pub timestamp: String,
}

/// The transferred token.
pub struct Token {
    pub data: Data,
}

/// The identity of the transferred token.
pub struct Data {
    pub token_id: String,
    pub token_address: String,
}

} // verus!
