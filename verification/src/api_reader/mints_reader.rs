//! The mints endpoint.

use vstd::prelude::*;

verus! {

/// The first page of the mints of the Illuvium land collection.
pub const MINTS_URL: &'static str =
    "https://api.x.immutable.com/v1/mints?token_address=0x9e0d99b864e1ac12565125c5a82b59adea5a09cd&page_size=200";

/// The configuration variable that switches the reading of mints on.
pub const MINTS_ENABLED: &'static str = "MINTS_ENABLED";

} // verus!
