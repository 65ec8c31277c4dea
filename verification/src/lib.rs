//! Rutify relays short notifications from producers to subscribers that are
//! connected at the moment, behind a two-factor token scheme: a bearer token
//! counts only if its signature verifies and, for notify tokens, its digest
//! is on record and unexpired, so that a token can be revoked before it
//! expires.
//!
//! The library decides; it does no waiting and touches no socket, file or
//! database. Times are handed in as seconds since the epoch.
//!
//! - `codec`: signed tokens, issued and verified with a shared secret.
//! - `db`: the records of tokens, users and notifications, and the stores
//!   that hold them.
//! - `auth`, `user`: issuing and revoking notify tokens, the two-factor
//!   check, registration and login.
//! - `ingest`: taking a notification in, storing and publishing it.
//! - `broadcaster`: the bus from publishers to subscribers, with its policy
//!   for subscribers that fall behind.
//! - `session`: one subscriber's connection as a state machine.
//! - `model`, `sdk`, `client`, `cli`, `panel`, `application`, `service`,
//!   `commands`: what clients and server exchange, and what the programs
//!   around them compute.
//! - `hashing`, `json`, `clock`, `ids`, `text`, `args`, `ordering`: digests,
//!   JSON objects, time, identifiers, text, command-line words, ordering.

pub mod application;
pub mod args;
pub mod auth;
pub mod broadcaster;
pub mod cli;
pub mod client;
pub mod clock;
pub mod codec;
pub mod commands;
pub mod db;
pub mod error;
pub mod hashing;
pub mod ids;
pub mod ingest;
pub mod json;
pub mod model;
pub mod ordering;
pub mod panel;
pub mod sdk;
pub mod service;
pub mod session;
pub mod text;
pub mod user;
