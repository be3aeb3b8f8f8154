//! Verified core of a fan site for clips, episodes and videos: configuration,
//! errors shared by server and client, query dispatch of the HTTP API, and the
//! requests that the client builds.

pub mod common_error;
pub mod config;
pub mod decimal;
pub mod frontend;
pub mod handlers;
pub mod protocol;
pub mod query_info;
pub mod ssr;
pub mod test_server;
