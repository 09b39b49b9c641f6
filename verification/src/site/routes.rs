//! The backend paths that the front end's views request.

use vstd::prelude::*;
use crate::text::{decimal_text, int_text};

verus! {

/// The path of a request with one query value: `endpoint` followed by the
/// value, as `format!("{endpoint}{value}")` writes it.
pub fn api_path(endpoint: &str, value: &str) -> (r: String)
    ensures
        r@ == endpoint@ + value@,
{
    String::from_str(endpoint).concat(value)
}

/// The query prefix of the asset detail request.
pub const ASSET_PATH: &'static str = "/asset/asset?token_address=";

/// The path of the detail of asset `token_id` of collection `token_address`.
pub fn asset_path(token_address: &str, token_id: i32) -> (r: String)
    ensures
        r@ == ASSET_PATH@ + token_address@ + seq!['&', 't', 'o', 'k', 'e', 'n', '_', 'i', 'd', '=']
            + int_text(token_id as int),
{
    proof {
        reveal_strlit("&token_id=");
    }
    let id = decimal_text(token_id);
    String::from_str(ASSET_PATH).concat(token_address).concat("&token_id=").concat(id.as_str())
}

/// The query prefix of the paged mints request.
pub const MINTS_PATH: &'static str = "/mint/mints?token_address=";

/// The path of page `page` of the mints of collection `token_address`.
pub fn mints_page_path(token_address: &str, page: i32) -> (r: String)
    ensures
        r@ == MINTS_PATH@ + token_address@ + seq!['&', 'p', 'a', 'g', 'e', '='] + int_text(
            page as int,
        ),
{
    proof {
        reveal_strlit("&page=");
    }
    let number = decimal_text(page);
    String::from_str(MINTS_PATH).concat(token_address).concat("&page=").concat(number.as_str())
}

/// Where the pictures of lands are, to be followed by the token id and `.svg`.
pub const LAND_ICON: &'static str = "https://assets.illuvium-game.io/illuvidex/land/land-";

/// The picture of land `token_id`.
pub fn land_icon_url(token_id: i32) -> (r: String)
    ensures
        r@ == LAND_ICON@ + int_text(token_id as int) + seq!['.', 's', 'v', 'g'],
{
    proof {
        reveal_strlit(".svg");
    }
    let id = decimal_text(token_id);
    String::from_str(LAND_ICON).concat(id.as_str()).concat(".svg")
}

} // verus!
