//! Rows of the `transfer` table.

use vstd::prelude::*;
use crate::model::transfer::{TheResult, Transfer};
use crate::text::{parse_i32, parsed_i32};
use crate::time_utils::{parse_rfc3339, zoned_of, ZonedTime};

verus! {

/// Writes pages of transfers to the `transfer` table.
pub struct TransferSaver;

/// The values of one inserted `transfer` row.
pub struct TransferRow {
    pub transaction_id: i32,
    pub status: String,
    pub wallet_from: String,
    pub wallet_to: String,
    pub token_id: i32,
    pub token_address: String,
    pub created_on: ZonedTime,
}

/// The row for one transfer: the token id read as an `i32` and the transfer
/// time read as RFC 3339; `None` where either cannot be read.
pub open spec fn transfer_row_of(res: TheResult) -> Option<TransferRow> {
    match (parsed_i32(res.token.data.token_id@), zoned_of(res.timestamp@)) {
        (Some(token_id), Some(created_on)) => Some(
            TransferRow {
                transaction_id: res.transaction_id,
                status: res.status,
                wallet_from: res.wallet_from,
                wallet_to: res.wallet_to,
                token_id,
                token_address: res.token.data.token_address,
                created_on,
            },
        ),
        _ => None,
    }
}

/// Which transfer fields reach which columns: a transfer has a row exactly
/// when its token id reads as an `i32` and its time as RFC 3339; the row
/// takes the transaction id, status, both wallets (sender in `wallet_from`,
/// receiver in `wallet_to`) and the token address as they are, the token id
/// read from the text and `created_on` from the transfer time.
pub proof fn lemma_transfer_row_columns(res: TheResult)
    ensures
        transfer_row_of(res) is Some <==> (parsed_i32(res.token.data.token_id@) is Some && zoned_of(res.timestamp@) is Some),
        transfer_row_of(res) matches Some(row) ==> (row.transaction_id == res.transaction_id && row.status == res.status && row.wallet_from == res.wallet_from && row.wallet_to == res.wallet_to && Some(row.token_id) == parsed_i32(res.token.data.token_id@) && row.token_address == res.token.data.token_address && Some(row.created_on) == zoned_of(res.timestamp@)),
{
}

impl TransferSaver {
    /// The row inserted for one transfer.
    pub fn row(&self, res: &TheResult) -> (r: Option<TransferRow>)
        ensures
            r == transfer_row_of(*res),
            r is Some <==> (parsed_i32(res.token.data.token_id@) is Some && zoned_of(res.timestamp@) is Some),
            r matches Some(row) ==> (row.transaction_id == res.transaction_id && row.status == res.status && row.wallet_from == res.wallet_from && row.wallet_to == res.wallet_to && Some(row.token_id) == parsed_i32(res.token.data.token_id@) && row.token_address == res.token.data.token_address && Some(row.created_on) == zoned_of(res.timestamp@)),
    {
        let token_id = match parse_i32(res.token.data.token_id.as_str()) {
            Some(v) => v,
            None => return None,
        };
        let created_on = match parse_rfc3339(res.timestamp.as_str()) {
            Some(t) => t,
            None => return None,
        };
        Some(
            TransferRow {
                transaction_id: res.transaction_id,
                status: res.status.clone(),
                wallet_from: res.wallet_from.clone(),
                wallet_to: res.wallet_to.clone(),
                token_id,
                token_address: res.token.data.token_address.clone(),
                created_on,
            },
        )
    }

    /// The rows inserted for a page of transfers, in page order; `None` when a
    /// record of the page has no row.
    pub fn rows(&self, transfer: &Transfer) -> (r: Option<Vec<TransferRow>>)
        ensures
            r is Some <==> forall|i: int|
                0 <= i < transfer.result@.len() ==> (#[trigger] transfer_row_of(
                    transfer.result@[i],
                )) is Some,
            r matches Some(rows) ==> rows@.len() == transfer.result@.len() && forall|i: int|
                0 <= i < rows@.len() ==> Some(#[trigger] rows@[i]) == transfer_row_of(
                    transfer.result@[i],
                ),
    {
        let mut rows: Vec<TransferRow> = Vec::new();
        let mut i: usize = 0;
        while i < transfer.result.len()
            invariant
                i <= transfer.result@.len(),
                rows@.len() == i,
                forall|j: int|
                    0 <= j < i ==> Some(#[trigger] rows@[j]) == transfer_row_of(
                        transfer.result@[j],
                    ),
            decreases transfer.result@.len() - i,
        {
            match self.row(&transfer.result[i]) {
                Some(row) => rows.push(row),
                None => {
                    assert(transfer_row_of(transfer.result@[i as int]) is None);
                    return None;
                },
            }
            i = i + 1;
        }
        assert forall|j: int| 0 <= j < transfer.result@.len() implies (#[trigger] transfer_row_of(
            transfer.result@[j],
        )) is Some by {
            assert(Some(rows@[j]) == transfer_row_of(transfer.result@[j]));
        }
        Some(rows)
    }
}

} // verus!
