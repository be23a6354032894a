//! Browser impersonation for HTTP clients: fingerprint model, header
//! precedence, TLS settings and the redirect state machine.

pub mod bridge;
pub mod cache;
pub mod client;
pub mod cookies;
pub mod emulation;
pub mod errors;
pub mod fingerprint;
pub mod fingerprints;
pub mod header_args;
pub mod http_headers;
pub mod request;
pub mod response;
pub mod text;
pub mod tls;
pub mod url;
