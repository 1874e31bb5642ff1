//! Client library for the Venafi Trust Protection Platform REST API.
//!
//! The library builds the outbound HTTP requests (path, API-key header and
//! JSON body) for each certificate operation and interprets the responses;
//! the caller owns the actual transport and hands every response back as
//! plain values.

pub mod api;
pub mod codec;
pub mod error;
pub mod expiry;
pub mod json;
pub mod laws;
pub mod types;
pub mod util;
