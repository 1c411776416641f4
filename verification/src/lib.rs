//! Verified core of a client library for the Discord API.
//!
//! The library computes what goes over the wire and decides what to do with
//! what comes back: the REST routes and JSON bodies of every endpoint, the
//! interpretation of login, gateway and status responses, the login-token
//! cache file, the websocket frame handling, the retry policy of a request
//! and the heartbeat timer. Sending and receiving is left to the caller.

pub mod json;
pub mod text;
pub mod model;
pub mod error;
pub mod request;
pub mod bulk;
pub mod cache;
pub mod timer;
pub mod flow;
pub mod frames;
pub mod image;
pub mod auth;
pub mod response;
pub mod routes;
pub mod edits;
pub mod interact;
pub mod internal;
pub mod upload;
