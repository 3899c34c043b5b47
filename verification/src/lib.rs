//! A verified client library for a channel-based package-repository API.
//!
//! The library covers the logic of the client: endpoint templates per
//! repository identity, the variable substitution that turns a template
//! into a concrete URL, credential resolution, derivation of the
//! delete-path variables from an artifact path, and construction of the
//! upload and delete requests with their integrity metadata. Reading
//! files and the network transport stay with the caller, which hands the
//! library plain values and dispatches the requests it builds.

pub mod artifact;
pub mod credentials;
pub mod errors;
pub mod registry;
pub mod request;
pub mod strutil;
pub mod template;
pub mod vars;
