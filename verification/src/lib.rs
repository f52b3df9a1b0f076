//! A client library for the Twitch Helix REST API.
//!
//! The library builds the requests (URLs, query strings, auth headers) and
//! decodes the JSON responses into typed records; sending the requests over
//! the network is left to the caller.

pub mod cli;
pub mod decode;
pub mod error;
pub mod json;
pub mod records;
pub mod request;
pub mod strutil;
