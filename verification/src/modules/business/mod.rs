//! Projects and their tasks.

pub mod project;
