//! A verified core for a minimal authentication gateway: request
//! normalization, email syntax validation, password policy enforcement,
//! constant-time credential comparison, correlation-id lifecycle, and the
//! login decision pipeline. HTTP transport, JSON wire encoding and process
//! configuration live in an unverified adapter around this library.

pub mod auth;
pub mod chars;
pub mod compare;
pub mod correlation;
pub mod email;
pub mod pipeline;
pub mod policy;
pub mod text;
