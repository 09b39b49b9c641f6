//! Verified core of the IlluviAnalytics data collector and its web front end:
//! decimal text handling, price text, configuration values, paging decisions
//! for the ImmutableX API, the conversion of API records into database rows,
//! and the requests, filters and search box of the front end.

pub mod api_reader;
pub mod db;
pub mod env_utils;
pub mod model;
pub mod price_utils;
pub mod site;
pub mod text;
pub mod time_utils;
