//! Clients for two OpenStack-style identity protocols: the v1 token exchange
//! and the v2 tenant-scoped token issuance.
//!
//! Each client is built once from an endpoint and credentials, prepares a
//! single HTTP request description, and interprets the server's reply into a
//! typed response or a typed failure. The actual network exchange is left to
//! the caller, which hands the raw reply back for interpretation.

pub mod authv1;
pub mod authv2;
pub mod error;
pub mod http;
pub mod json;
