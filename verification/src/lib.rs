//! Message API of the Mairie 360 platform: the request validation, the
//! database query descriptions and the decisions of every HTTP route, each
//! with its contract.
pub mod database;
pub mod endpoints;
pub mod sse;
pub mod text;
