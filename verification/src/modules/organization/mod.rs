//! Departments and teams.

pub mod department;
pub mod team;
