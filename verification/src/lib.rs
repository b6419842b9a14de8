//! Client-side gateway for the Angel Requests tipping service.
//!
//! Every request URL and JSON payload is built, and every HTTP response
//! decoded, by verified functions; the network round trip itself is left
//! to the (unverified) caller, which hands the raw outcome back to the
//! library for interpretation.

pub mod chars;
pub mod decode;
pub mod gateway;
pub mod json;
pub mod model;
pub mod parse;
pub mod text;
pub mod url;
