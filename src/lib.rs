//! A small HTTP service core: a uniform response envelope and a
//! redacting request-tracing policy, driven by a validated deployment mode.

pub mod config;
pub mod envelope;
pub mod telemetry;
pub mod span;
pub mod routes;
