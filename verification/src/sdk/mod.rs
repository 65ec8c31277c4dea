//! What a client needs to talk to the server: requests, answers, errors.

pub mod auth;
pub mod client;
pub mod error;
pub mod types;
