//! The rows that the savers write to the database, built from API records.

pub mod assets_handler;
pub mod db_handler;
pub mod mints_handler;
pub mod orders_handler;
pub mod transfers_handler;
