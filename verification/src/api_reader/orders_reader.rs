//! The orders endpoints: the list of orders updated since the last run, and
//! the detail of one order.

use vstd::prelude::*;
use crate::text::{decimal_text, int_text};
use crate::time_utils::{chrono_format_utc, utc_text};

verus! {

/// The orders selling Illuvium land, oldest first, to be followed by the
/// minimal update time.
pub const ORDERS_URL: &'static str = "https://api.x.immutable.com/v1/orders?sell_token_address=0x9e0d99b864e1ac12565125c5a82b59adea5a09cd&page_size=200&order_by=created_at&direction=asc&updated_min_timestamp=";

/// The order detail endpoint, to be followed by `/` and the order id.
pub const ORDER_URL: &'static str = "https://api.x.immutable.com/v1/orders";

/// The minimal update time asked for when no order has been stored yet.
pub const FALLBACK_UPDATED_ON: &'static str = "2000-01-12T02:00:00Z";

/// The strftime pattern of the minimal update time.
pub const UPDATED_ON_PATTERN: &'static str = "%Y-%m-%dT%H:%M:%SZ";

/// The buy currency of orders whose currency symbol is looked up afterwards.
pub const ERC20: &'static str = "ERC20";

/// The configuration variable that switches the reading of orders on.
pub const ORDERS_ENABLED: &'static str = "ORDERS_ENABLED";

/// The URL of the orders updated since the last stored update time
/// (`last_updated_on`, as UNIX seconds and nanoseconds of a UTC time), or
/// since the fallback time when nothing is stored; `None` when the stored
/// time cannot be written.
pub fn orders_url(last_updated_on: Option<(i64, u32)>) -> (r: Option<String>)
    ensures
        last_updated_on is None ==> (r matches Some(u) && u@ == ORDERS_URL@ + FALLBACK_UPDATED_ON@),
        last_updated_on matches Some(t) ==> match utc_text(t.0, t.1, UPDATED_ON_PATTERN@) {
            Some(text) => (r matches Some(u) && u@ == ORDERS_URL@ + text),
            None => r is None,
        },
{
    match last_updated_on {
        None => Some(String::from_str(ORDERS_URL).concat(FALLBACK_UPDATED_ON)),
        Some(t) => match chrono_format_utc(t.0, t.1, UPDATED_ON_PATTERN) {
            Some(text) => Some(String::from_str(ORDERS_URL).concat(text.as_str())),
            None => None,
        },
    }
}

/// The URL of the detail of order `order_id`.
pub fn order_url(order_id: i32) -> (r: String)
    ensures
        r@ == ORDER_URL@ + seq!['/'] + int_text(order_id as int),
{
    proof {
        reveal_strlit("/");
    }
    let id = decimal_text(order_id);
    String::from_str(ORDER_URL).concat("/").concat(id.as_str())
}

} // verus!
