//! Trust-and-cache gateway for a notification relay.
//!
//! Clients submit notifications over HTTP; the relay authenticates the caller
//! (bearer tokens for end users, signed callbacks for the delivery queue),
//! authorizes the requested action against a flat permission set, and serves
//! previously stored notifications through a cache-aside layer with a TTL
//! staleness bound.

pub mod auth;
pub mod cache;
pub mod db;
pub mod errors;
pub mod fold;
pub mod http;
pub mod kv_storage;
pub mod notifications;
pub mod qstash;
pub mod store;
pub mod token;
pub mod util;
