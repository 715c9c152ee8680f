//! Registration, login and sessions.

pub mod handlers;
pub mod models;
pub mod repository;
