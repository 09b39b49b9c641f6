//! Decisions of the readers that page through the ImmutableX API.

pub mod api_utils;
pub mod assets_reader;
pub mod mints_reader;
pub mod orders_reader;
pub mod transfers_reader;
pub mod utils;
