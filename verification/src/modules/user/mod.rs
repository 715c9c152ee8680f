//! User accounts.

pub mod handlers;
pub mod models;
pub mod repository;
