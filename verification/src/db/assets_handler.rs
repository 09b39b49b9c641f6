//! Rows of the `asset` table.

use vstd::prelude::*;
use crate::model::asset::{Asset, Assets};
use crate::text::{parse_i32, parsed_i32};
use crate::time_utils::{parse_rfc3339, zoned_of, ZonedTime};

verus! {

/// Writes pages of assets to the `asset` table; a token already there gets
/// the new owner and update time.
pub struct AssetSaver;

/// The values of one inserted `asset` row.
pub struct AssetRow {
    pub token_id: i32,
    pub token_address: String,
    pub name: String,
    pub tier: i32,
    pub solon: i32,
    pub carbon: i32,
    pub crypton: i32,
    pub silicon: i32,
    pub hydrogen: i32,
    pub hyperion: i32,
    pub landmark: String,
    pub current_owner: String,
    pub created_on: ZonedTime,
    pub updated_on: ZonedTime,
}

/// The row for one asset: the token id read as an `i32` and both times read
/// as RFC 3339; `None` where any of them cannot be read.
pub open spec fn asset_row_of(res: Asset) -> Option<AssetRow> {
    match (parsed_i32(res.token_id@), zoned_of(res.created_at@), zoned_of(res.updated_at@)) {
        (Some(token_id), Some(created_on), Some(updated_on)) => Some(
            AssetRow {
                token_id,
                token_address: res.token_address,
                name: res.metadata.name,
                tier: res.metadata.tier,
                solon: res.metadata.solon,
                carbon: res.metadata.carbon,
                crypton: res.metadata.crypton,
                silicon: res.metadata.silicon,
                hydrogen: res.metadata.hydrogen,
                hyperion: res.metadata.hyperion,
                landmark: res.metadata.landmark,
                current_owner: res.current_owner,
                created_on,
                updated_on,
            },
        ),
        _ => None,
    }
}

/// Which asset fields reach which columns: an asset has a row exactly when
/// its token id reads as an `i32` and both its times as RFC 3339; the row
/// takes the token address, the owner and every metadata value from the same
/// field of the asset, the token id read from the text, `created_on` from
/// `created_at` and `updated_on` from `updated_at`.
pub proof fn lemma_asset_row_columns(res: Asset)
    ensures
        asset_row_of(res) is Some <==> (parsed_i32(res.token_id@) is Some && zoned_of(res.created_at@) is Some && zoned_of(res.updated_at@) is Some),
        asset_row_of(res) matches Some(row) ==> (Some(row.token_id) == parsed_i32(res.token_id@) && row.token_address == res.token_address && row.name == res.metadata.name && row.tier == res.metadata.tier && row.solon == res.metadata.solon && row.carbon == res.metadata.carbon && row.crypton == res.metadata.crypton && row.silicon == res.metadata.silicon && row.hydrogen == res.metadata.hydrogen && row.hyperion == res.metadata.hyperion && row.landmark == res.metadata.landmark && row.current_owner == res.current_owner && Some(row.created_on) == zoned_of(res.created_at@) && Some(row.updated_on) == zoned_of(res.updated_at@)),
{
}

impl AssetSaver {
    /// The row inserted for one asset.
    pub fn row(&self, res: &Asset) -> (r: Option<AssetRow>)
        ensures
            r == asset_row_of(*res),
            r is Some <==> (parsed_i32(res.token_id@) is Some && zoned_of(res.created_at@) is Some && zoned_of(res.updated_at@) is Some),
            r matches Some(row) ==> (Some(row.token_id) == parsed_i32(res.token_id@) && row.token_address == res.token_address && row.name == res.metadata.name && row.tier == res.metadata.tier && row.solon == res.metadata.solon && row.carbon == res.metadata.carbon && row.crypton == res.metadata.crypton && row.silicon == res.metadata.silicon && row.hydrogen == res.metadata.hydrogen && row.hyperion == res.metadata.hyperion && row.landmark == res.metadata.landmark && row.current_owner == res.current_owner && Some(row.created_on) == zoned_of(res.created_at@) && Some(row.updated_on) == zoned_of(res.updated_at@)),
    {
        let token_id = match parse_i32(res.token_id.as_str()) {
            Some(v) => v,
            None => return None,
        };
        let created_on = match parse_rfc3339(res.created_at.as_str()) {
            Some(t) => t,
            None => return None,
        };
        let updated_on = match parse_rfc3339(res.updated_at.as_str()) {
            Some(t) => t,
            None => return None,
        };
        let metadata = &res.metadata;
        Some(
            AssetRow {
                token_id,
                token_address: res.token_address.clone(),
                name: metadata.name.clone(),
                tier: metadata.tier,
                solon: metadata.solon,
                carbon: metadata.carbon,
                crypton: metadata.crypton,
                silicon: metadata.silicon,
                hydrogen: metadata.hydrogen,
                hyperion: metadata.hyperion,
                landmark: metadata.landmark.clone(),
                current_owner: res.current_owner.clone(),
                created_on,
                updated_on,
            },
        )
    }

    /// The rows inserted for a page of assets, in page order; `None` when a
    /// record of the page has no row.
    pub fn rows(&self, assets: &Assets) -> (r: Option<Vec<AssetRow>>)
        ensures
            r is Some <==> forall|i: int|
                0 <= i < assets.result@.len() ==> (#[trigger] asset_row_of(assets.result@[i])) is Some,
            r matches Some(rows) ==> rows@.len() == assets.result@.len() && forall|i: int|
                0 <= i < rows@.len() ==> Some(#[trigger] rows@[i]) == asset_row_of(assets.result@[i]),
    {
        let mut rows: Vec<AssetRow> = Vec::new();
        let mut i: usize = 0;
        while i < assets.result.len()
            invariant
                i <= assets.result@.len(),
                rows@.len() == i,
                forall|j: int|
                    0 <= j < i ==> Some(#[trigger] rows@[j]) == asset_row_of(assets.result@[j]),
            decreases assets.result@.len() - i,
        {
            match self.row(&assets.result[i]) {
                Some(row) => rows.push(row),
                None => {
                    assert(asset_row_of(assets.result@[i as int]) is None);
                    return None;
                },
            }
            i = i + 1;
        }
        assert forall|j: int| 0 <= j < assets.result@.len() implies (#[trigger] asset_row_of(
            assets.result@[j],
        )) is Some by {
            assert(Some(rows@[j]) == asset_row_of(assets.result@[j]));
        }
        Some(rows)
    }
}

} // verus!
