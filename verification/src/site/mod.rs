//! Decisions of the web front end: the requests its views make, the events
//! filter, the search box and the layout of lists.

pub mod events_table;
pub mod layout;
pub mod routes;
pub mod search;
pub mod views;
