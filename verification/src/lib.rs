//! A stub HTTP API for user and post resources.
//!
//! The crate holds everything the service decides: the two records it
//! exchanges, the handler behind each route, the decoding of query and path
//! parameters, and the route table together with the switch that publishes a
//! schema of the routes and a documentation browser. Serving HTTP is left to
//! the program that embeds the crate.

pub mod record;
pub mod handlers;
pub mod decimal;
pub mod request;
pub mod routes;
pub mod docs;
pub mod report;
