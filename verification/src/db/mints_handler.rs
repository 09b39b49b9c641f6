//! Rows of the `mint` table.

use vstd::prelude::*;
use crate::model::mint::{Mint, TheResult};
use crate::text::{parse_i32, parsed_i32};
use crate::time_utils::{parse_rfc3339, zoned_of, ZonedTime};

verus! {

/// Writes pages of mints to the `mint` table.
pub struct MintSaver;

/// The values of one inserted `mint` row.
pub struct MintRow {
    pub transaction_id: i32,
    pub status: String,
    pub wallet: String,
    pub token_type: String,
    pub token_id: i32,
    pub minted_on: ZonedTime,
}

/// The row for one mint: the token id read as an `i32` and the mint time read
/// as RFC 3339; `None` where either cannot be read.
pub open spec fn mint_row_of(res: TheResult) -> Option<MintRow> {
    match (parsed_i32(res.token.data.token_id@), zoned_of(res.minted_on@)) {
        (Some(token_id), Some(minted_on)) => Some(
            MintRow {
                transaction_id: res.transaction_id,
                status: res.status,
                wallet: res.wallet,
                token_type: res.token.the_type,
                token_id,
                minted_on,
            },
        ),
        _ => None,
    }
}

/// Which mint fields reach which columns: a mint has a row exactly when its
/// token id reads as an `i32` and its time as RFC 3339; the row takes the
/// transaction id, status, wallet and token type as they are, the token id
/// read from the text and `minted_on` from the mint time.
pub proof fn lemma_mint_row_columns(res: TheResult)
    ensures
        mint_row_of(res) is Some <==> (parsed_i32(res.token.data.token_id@) is Some && zoned_of(res.minted_on@) is Some),
        mint_row_of(res) matches Some(row) ==> (row.transaction_id == res.transaction_id && row.status == res.status && row.wallet == res.wallet && row.token_type == res.token.the_type && Some(row.token_id) == parsed_i32(res.token.data.token_id@) && Some(row.minted_on) == zoned_of(res.minted_on@)),
{
}

impl MintSaver {
    /// The row inserted for one mint.
    pub fn row(&self, res: &TheResult) -> (r: Option<MintRow>)
        ensures
            r == mint_row_of(*res),
            r is Some <==> (parsed_i32(res.token.data.token_id@) is Some && zoned_of(res.minted_on@) is Some),
            r matches Some(row) ==> (row.transaction_id == res.transaction_id && row.status == res.status && row.wallet == res.wallet && row.token_type == res.token.the_type && Some(row.token_id) == parsed_i32(res.token.data.token_id@) && Some(row.minted_on) == zoned_of(res.minted_on@)),
    {
        let token_id = match parse_i32(res.token.data.token_id.as_str()) {
            Some(v) => v,
            None => return None,
        };
        let minted_on = match parse_rfc3339(res.minted_on.as_str()) {
            Some(t) => t,
            None => return None,
        };
        Some(
            MintRow {
                transaction_id: res.transaction_id,
                status: res.status.clone(),
                wallet: res.wallet.clone(),
                token_type: res.token.the_type.clone(),
                token_id,
                minted_on,
            },
        )
    }

    /// The rows inserted for a page of mints, in page order; `None` when a
    /// record of the page has no row.
    pub fn rows(&self, mint: &Mint) -> (r: Option<Vec<MintRow>>)
        ensures
            r is Some <==> forall|i: int|
                0 <= i < mint.result@.len() ==> (#[trigger] mint_row_of(mint.result@[i])) is Some,
            r matches Some(rows) ==> rows@.len() == mint.result@.len() && forall|i: int|
                0 <= i < rows@.len() ==> Some(#[trigger] rows@[i]) == mint_row_of(mint.result@[i]),
    {
        let mut rows: Vec<MintRow> = Vec::new();
        let mut i: usize = 0;
        while i < mint.result.len()
            invariant
                i <= mint.result@.len(),
                rows@.len() == i,
                forall|j: int| 0 <= j < i ==> Some(#[trigger] rows@[j]) == mint_row_of(mint.result@[j]),
            decreases mint.result@.len() - i,
        {
            match self.row(&mint.result[i]) {
                Some(row) => rows.push(row),
                None => {
                    assert(mint_row_of(mint.result@[i as int]) is None);
                    return None;
                },
            }
            i = i + 1;
        }
        assert forall|j: int| 0 <= j < mint.result@.len() implies (#[trigger] mint_row_of(
            mint.result@[j],
        )) is Some by {
            assert(Some(rows@[j]) == mint_row_of(mint.result@[j]));
        }
        Some(rows)
    }
}

} // verus!
