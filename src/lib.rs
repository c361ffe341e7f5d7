//! Client side of a remote vector-index service: shapes the HTTP requests for
//! creating and listing indexes, inserting vectors and k-nearest-neighbour
//! queries, and turns the replies into typed results.
pub mod client;
pub mod error;
pub mod http;
pub mod json;
pub mod text;
