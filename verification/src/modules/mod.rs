//! The business areas of the service.

pub mod auth;
pub mod business;
pub mod holiday;
pub mod organization;
pub mod user;
