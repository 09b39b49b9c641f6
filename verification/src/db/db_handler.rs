//! Values shared by the database handlers: sets of ids read back from the
//! database, and the rows of the first version of the `mint` writer, which
//! keeps the token id as text.

use vstd::prelude::*;
use std::collections::HashSet;
use crate::model::mint::TheResult;
use crate::time_utils::{parse_rfc3339, zoned_of, ZonedTime};

verus! {

broadcast use vstd::std_specs::hash::group_hash_axioms;

/// The distinct ids among the values of a queried id column.
pub fn distinct_ids(ids: &Vec<i32>) -> (r: HashSet<i32>)
    ensures
        r@ == ids@.to_set(),
{
    let mut set: HashSet<i32> = HashSet::new();
    let mut i: usize = 0;
    while i < ids.len()
        invariant
            i <= ids@.len(),
            set@ == ids@.take(i as int).to_set(),
        decreases ids@.len() - i,
    {
        set.insert(ids[i]);
        proof {
            assert(ids@.take(i + 1) =~= ids@.take(i as int).push(ids@[i as int]));
            ids@.take(i as int).lemma_push_to_set_commute(ids@[i as int]);
        }
        i = i + 1;
    }
    assert(ids@.take(ids@.len() as int) =~= ids@);
    set
}

/// The values of one `mint` row as the first writer inserts them.
pub struct MintRecord {
    pub transaction_id: i32,
    pub status: String,
    pub wallet: String,
    pub token_type: String,
    pub token_id: String,
    pub minted_on: ZonedTime,
}

/// The record for one mint, with the mint time read as RFC 3339; `None`
/// where it cannot be read.
pub open spec fn mint_record_of(res: TheResult) -> Option<MintRecord> {
    match zoned_of(res.minted_on@) {
        Some(minted_on) => Some(
            MintRecord {
                transaction_id: res.transaction_id,
                status: res.status,
                wallet: res.wallet,
                token_type: res.token.the_type,
                token_id: res.token.data.token_id,
                minted_on,
            },
        ),
        None => None,
    }
}

/// Which mint fields reach which columns of the first writer: a mint has a
/// record exactly when its time reads as RFC 3339; the record keeps the token
/// id as text and takes every other value from the same field.
pub proof fn lemma_mint_record_columns(res: TheResult)
    ensures
        mint_record_of(res) is Some <==> zoned_of(res.minted_on@) is Some,
        mint_record_of(res) matches Some(record) ==> (record.transaction_id == res.transaction_id
            && record.status == res.status && record.wallet == res.wallet && record.token_type
            == res.token.the_type && record.token_id == res.token.data.token_id && Some(
            record.minted_on,
        ) == zoned_of(res.minted_on@)),
{
}

/// The records `save_mints` inserts for the given mints, in order; `None`
/// when a mint time cannot be read.
pub fn mint_records(mint_result: &Vec<TheResult>) -> (r: Option<Vec<MintRecord>>)
    ensures
        r is Some <==> forall|i: int|
            0 <= i < mint_result@.len() ==> (#[trigger] mint_record_of(mint_result@[i])) is Some,
        r matches Some(records) ==> records@.len() == mint_result@.len() && forall|i: int|
            0 <= i < records@.len() ==> Some(#[trigger] records@[i]) == mint_record_of(
                mint_result@[i],
            ),
{
    let mut records: Vec<MintRecord> = Vec::new();
    let mut i: usize = 0;
    while i < mint_result.len()
        invariant
            i <= mint_result@.len(),
            records@.len() == i,
            forall|j: int|
                0 <= j < i ==> Some(#[trigger] records@[j]) == mint_record_of(mint_result@[j]),
        decreases mint_result@.len() - i,
    {
        let res = &mint_result[i];
        match parse_rfc3339(res.minted_on.as_str()) {
            Some(minted_on) => records.push(
                MintRecord {
                    transaction_id: res.transaction_id,
                    status: res.status.clone(),
                    wallet: res.wallet.clone(),
                    token_type: res.token.the_type.clone(),
                    token_id: res.token.data.token_id.clone(),
                    minted_on,
                },
            ),
            None => {
                assert(mint_record_of(mint_result@[i as int]) is None);
                return None;
            },
        }
        i = i + 1;
    }
    assert forall|j: int| 0 <= j < mint_result@.len() implies (#[trigger] mint_record_of(
        mint_result@[j],
    )) is Some by {
        assert(Some(records@[j]) == mint_record_of(mint_result@[j]));
    }
    Some(records)
}

} // verus!
