//! User authentication for a web client with several devices: validation of what a client
//! sends to register or to log in, hashing and verifying of passwords, issuing of access
//! tokens and of sessions, the list of sessions that a store keeps for each user, and the
//! errors in which all of it fails.
//!
//! Nothing here reads a socket or talks to a store. Registration and login are state
//! machines: each step says what is to be done next, and whoever drives them does it and
//! comes back with what happened.

pub mod clock;
pub mod config;
pub mod errors;
pub mod ident;
pub mod json;
pub mod models;
pub mod password;
pub mod routes;
pub mod token;
pub mod useragent;
pub mod validation;
