//! Rows of the `order_data` table.

use vstd::prelude::*;
use crate::model::order::{Order, TheResult};
use crate::price_utils::{price_input_ok, price_text, price_text_of};
use crate::text::{parse_i32, parsed_i32};
use crate::time_utils::{parse_rfc3339, zoned_of, ZonedTime};

verus! {

/// Writes pages of orders to the `order_data` table; an order already there
/// gets the new status and price.
pub struct OrderSaver;

/// The values of one inserted `order_data` row. The price is kept as the
/// decimal text that is read as an `f32` when the row is written.
pub struct OrderRow {
    pub order_id: i32,
    pub status: String,
    pub wallet_from: String,
    pub token_id: i32,
    pub token_address: String,
    pub buy_currency: String,
    pub buy_price: String,
    pub created_on: ZonedTime,
    pub updated_on: ZonedTime,
}

/// An order has a row when the sold token id is present and reads as an
/// `i32`, the number of decimals is present and fits the quantity, and both
/// times read as RFC 3339.
pub open spec fn order_row_ok(res: TheResult) -> bool {
    &&& res.sell.data.token_id matches Some(t) && parsed_i32(t@) is Some
    &&& res.buy.data.decimals matches Some(d) && price_input_ok(res.buy.data.quantity@, d as int)
    &&& zoned_of(res.timestamp@) is Some
    &&& zoned_of(res.updated_timestamp@) is Some
}

/// The row written for an order that has one.
pub open spec fn order_row_matches(row: OrderRow, res: TheResult) -> bool {
    &&& row.order_id == res.order_id
    &&& row.status == res.status
    &&& row.wallet_from == res.wallet
    &&& Some(row.token_id) == parsed_i32(res.sell.data.token_id->0@)
    &&& row.token_address == res.sell.data.token_address
    &&& row.buy_currency == res.buy.buy_currency
    &&& row.buy_price@ == price_text_of(res.buy.data.quantity@, res.buy.data.decimals->0 as int)
    &&& Some(row.created_on) == zoned_of(res.timestamp@)
    &&& Some(row.updated_on) == zoned_of(res.updated_timestamp@)
}

/// Which order fields reach which columns: an order has a row exactly when
/// its sold token id is present and reads as an `i32`, its decimals are
/// present and fit the quantity, and both its times read as RFC 3339; the
/// row takes the order id, status, wallet, token address and buy currency as
/// they are, the token id read from the sold token id, the quantity with its
/// decimal point placed, `created_on` from `timestamp` and `updated_on` from
/// `updated_timestamp`.
pub proof fn lemma_order_row_columns(row: OrderRow, res: TheResult)
    ensures
        order_row_ok(res) <==> (res.sell.data.token_id is Some && parsed_i32(
            res.sell.data.token_id->0@,
        ) is Some && res.buy.data.decimals is Some && price_input_ok(
            res.buy.data.quantity@,
            res.buy.data.decimals->0 as int,
        ) && zoned_of(res.timestamp@) is Some && zoned_of(res.updated_timestamp@) is Some),
        order_row_matches(row, res) ==> {
            &&& row.order_id == res.order_id
            &&& row.status == res.status
            &&& row.wallet_from == res.wallet
            &&& Some(row.token_id) == parsed_i32(res.sell.data.token_id->0@)
            &&& row.token_address == res.sell.data.token_address
            &&& row.buy_currency == res.buy.buy_currency
            &&& row.buy_price@ == price_text_of(
                res.buy.data.quantity@,
                res.buy.data.decimals->0 as int,
            )
            &&& Some(row.created_on) == zoned_of(res.timestamp@)
            &&& Some(row.updated_on) == zoned_of(res.updated_timestamp@)
        },
{
}

impl OrderSaver {
    /// The row inserted for one order.
    pub fn row(&self, res: &TheResult) -> (r: Option<OrderRow>)
        ensures
            r is Some <==> order_row_ok(*res),
            r matches Some(row) ==> order_row_matches(row, *res),
            r is Some <==> (res.sell.data.token_id is Some && parsed_i32(
                res.sell.data.token_id->0@,
            ) is Some && res.buy.data.decimals is Some && price_input_ok(
                res.buy.data.quantity@,
                res.buy.data.decimals->0 as int,
            ) && zoned_of(res.timestamp@) is Some && zoned_of(res.updated_timestamp@) is Some),
            r matches Some(row) ==> (row.order_id == res.order_id && row.status == res.status
                && row.wallet_from == res.wallet && Some(row.token_id) == parsed_i32(
                res.sell.data.token_id->0@,
            ) && row.token_address == res.sell.data.token_address && row.buy_currency
                == res.buy.buy_currency && row.buy_price@ == price_text_of(
                res.buy.data.quantity@,
                res.buy.data.decimals->0 as int,
            ) && Some(row.created_on) == zoned_of(res.timestamp@) && Some(row.updated_on)
                == zoned_of(res.updated_timestamp@)),
    {
        let sell_data = &res.sell.data;
        let buy_data = &res.buy.data;
        let token_id = match &sell_data.token_id {
            Some(t) => match parse_i32(t.as_str()) {
                Some(v) => v,
                None => return None,
            },
            None => return None,
        };
        let decimals = match buy_data.decimals {
            Some(d) => d,
            None => return None,
        };
        let quantity = buy_data.quantity.as_str();
        if !(quantity.is_ascii() && quantity.unicode_len() < 0x7fff_ffff && 0 <= decimals
            && decimals as usize <= quantity.unicode_len() + 1) {
            return None;
        }
        let buy_price = price_text(quantity, decimals);
        let created_on = match parse_rfc3339(res.timestamp.as_str()) {
            Some(t) => t,
            None => return None,
        };
        let updated_on = match parse_rfc3339(res.updated_timestamp.as_str()) {
            Some(t) => t,
            None => return None,
        };
        Some(
            OrderRow {
                order_id: res.order_id,
                status: res.status.clone(),
                wallet_from: res.wallet.clone(),
                token_id,
                token_address: sell_data.token_address.clone(),
                buy_currency: res.buy.buy_currency.clone(),
                buy_price,
                created_on,
                updated_on,
            },
        )
    }

    /// The rows inserted for a page of orders, in page order; `None` when a
    /// record of the page has no row.
    pub fn rows(&self, order: &Order) -> (r: Option<Vec<OrderRow>>)
        ensures
            r is Some <==> forall|i: int|
                0 <= i < order.result@.len() ==> #[trigger] order_row_ok(order.result@[i]),
            r matches Some(rows) ==> rows@.len() == order.result@.len() && forall|i: int|
                0 <= i < rows@.len() ==> #[trigger] order_row_matches(rows@[i], order.result@[i]),
    {
        let mut rows: Vec<OrderRow> = Vec::new();
        let mut i: usize = 0;
        while i < order.result.len()
            invariant
                i <= order.result@.len(),
                rows@.len() == i,
                forall|j: int| 0 <= j < i ==> #[trigger] order_row_ok(order.result@[j]),
                forall|j: int|
                    0 <= j < i ==> #[trigger] order_row_matches(rows@[j], order.result@[j]),
            decreases order.result@.len() - i,
        {
            match self.row(&order.result[i]) {
                Some(row) => rows.push(row),
                None => return None,
            }
            i = i + 1;
        }
        Some(rows)
    }
}

} // verus!
