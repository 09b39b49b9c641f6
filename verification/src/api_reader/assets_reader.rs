//! The assets endpoint.

use vstd::prelude::*;

verus! {

/// The first page of the land assets of the Illuvium land collection.
pub const ASSETS_URL: &'static str =
    "https://api.x.immutable.com/v1/assets?collection=0x9e0d99b864e1ac12565125c5a82b59adea5a09cd&page_size=200";

/// The configuration variable that switches the reading of assets on.
pub const ASSETS_ENABLED: &'static str = "ASSETS_ENABLED";

} // verus!
