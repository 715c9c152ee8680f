//! Tasks of a project and the attributes a project gives its tasks.

pub mod models;
pub mod repository;
