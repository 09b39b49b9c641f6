//! The transfers endpoint.

use vstd::prelude::*;

verus! {

/// The first page of the transfers of the Illuvium land collection, oldest
/// first.
pub const TRANSFERS_URL: &'static str =
    "https://api.x.immutable.com/v1/transfers?token_address=0x9e0d99b864e1ac12565125c5a82b59adea5a09cd&page_size=200&order_by=created_at&direction=asc";

/// The configuration variable that switches the reading of transfers on.
pub const TRANSFERS_ENABLED: &'static str = "TRANSFERS_ENABLED";

} // verus!
