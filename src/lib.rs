//! A small HTTP server core: it routes request paths to static assets or to a
//! single database-backed JSON endpoint, and turns every outcome into a response.

pub mod asset;
pub mod gateway;
pub mod response;
pub mod router;
pub mod client;
