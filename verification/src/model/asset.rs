//! Land assets and their metadata.

use vstd::prelude::*;
use crate::model::shared::PaginatedApi;

verus! {

/// A page of assets.
pub struct Assets {
    pub result: Vec<Asset>,
    pub cursor: String,
}

impl PaginatedApi for Assets {
    open spec fn cursor_of(&self) -> Seq<char> {
        self.cursor@
    }

    open spec fn holds_results(&self) -> bool {
        self.result@.len() > 0
    }

    fn get_cursor(&self) -> (r: String)
        ensures
            r@ == self.cursor@,
    {
        self.cursor.clone()
    }

    fn has_results(&self) -> (r: bool)
        ensures
            r == (self.result@.len() > 0),
    {
        !self.result.is_empty()
    }
}

/// One land asset (`user` in the API is `current_owner`).
pub struct Asset {
    pub token_id: String,
    pub token_address: String,
    pub current_owner: String,
    pub created_at: String,
    pub updated_at: String,
    pub metadata: Metadata,
}

/// The land's attributes.
pub struct Metadata {
    pub name: String,
    pub tier: i32,
    pub solon: i32,
    pub carbon: i32,
    pub crypton: i32,
    pub silicon: i32,
    pub hydrogen: i32,
    pub hyperion: i32,
    pub landmark: String,
    pub image_url: String,
}

} // verus!
