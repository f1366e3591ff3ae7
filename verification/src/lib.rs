//! A multi-tenant HTTP reverse proxy core: an application registry, a
//! fail-closed authorization guard, and a byte-exact forwarding engine.
//!
//! The library holds the request-dispatch logic as plain, verified values
//! and decisions; the surrounding process (listener, outbound HTTP calls,
//! configuration decoding) drives it from outside.

pub mod applications;
pub mod date;
pub mod gateway;
pub mod headers;
pub mod management;
pub mod routing;
pub mod text;
