//! Holidays.

pub mod models;
pub mod repository;
