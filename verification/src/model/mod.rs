//! The records that the ImmutableX API returns, as plain values.

pub mod asset;
pub mod mint;
pub mod order;
pub mod shared;
pub mod trade;
pub mod transfer;
