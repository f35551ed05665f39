//! Browser impersonation made simple.
//!
//! This library decides everything that an impersonated HTTP client can
//! decide without touching the network: which headers a browser sends and in
//! which order, how custom headers override them, which TLS parameters a
//! profile asks for, how a host's HTTP/3 capability is cached and promoted,
//! and how a single request is planned, retried and recorded.  The pieces
//! that actually move bytes (DNS queries, the HTTP send itself) live outside
//! and are driven through the plans and events this library exchanges.

pub mod emulation;
pub mod ffdhe;
pub mod http3;
pub mod http_headers;
pub mod impit;
pub mod request;
pub mod response_parsing;
pub mod text;
pub mod tls;
