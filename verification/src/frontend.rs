//! The client side of the API: its errors, the requests it sends, and how it
//! reads the answers.

pub mod commands;
pub mod error;
pub mod requests;
pub mod utils;

pub use error::AppFrontError;
