//! Verified core of the order-book indexer: the in-memory market and order
//! index, the rules that fold chain events into it, and the request logic of
//! the HTTP and websocket endpoints.

pub mod text;
pub mod assoc;
pub mod models;
pub mod ids;
pub mod error;
pub mod spot_market;
pub mod routes;
pub mod indexer;
