//! Verified core of the service: identifier generation and the value types
//! and rules that travel with the identifiers.

pub mod common;
pub mod config;
pub mod modules;
