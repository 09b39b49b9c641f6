//! Mints of land tokens.

use vstd::prelude::*;
use crate::model::shared::PaginatedApi;

verus! {

/// A page of mints.
pub struct Mint {
    pub result: Vec<TheResult>,
    pub cursor: String,
}

impl PaginatedApi for Mint {
    open spec fn cursor_of(&self) -> Seq<char> {
        self.cursor@
    }

    open spec fn holds_results(&self) -> bool {
        self.result@.len() > 0
    }

    fn get_cursor(&self) -> (r: String)
        ensures
            r@ == self.cursor@,
    {
        self.cursor.clone()
    }

    fn has_results(&self) -> (r: bool)
        ensures
            r == (self.result@.len() > 0),
    {
        !self.result.is_empty()
    }
}

/// One mint (`timestamp` and `user` in the API are `minted_on` and `wallet`).
pub struct TheResult {
    pub minted_on: String,
    pub transaction_id: i32,
    pub status: String,
    pub wallet: String,
    pub token: Token,
}

/// The minted token (`type` in the API is `the_type`).
pub struct Token {
    pub the_type: String,
    pub data: Data,
}

/// The identity of the minted token.
pub struct Data {
    pub token_id: String,
}

} // verus!
