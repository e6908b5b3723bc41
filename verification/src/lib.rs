//! Request-lifecycle hooks and build-identity reporting for an
//! event-registration backend.
//!
//! The crate covers the cross-cutting subsystem that wraps every
//! request/response pair: structured logging of routes and dispatch
//! outcomes, environment-conditional security-header injection, and the
//! build-identity snapshot exposed through a read-only status query.

pub mod headers;
pub mod identity;
pub mod logging;
pub mod pipeline;
pub mod snapshot;
pub mod status;
pub mod text;
