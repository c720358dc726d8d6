//! A small task tracker: tasks live in one SQLite file per project and move
//! through a fixed forward-only lifecycle.

pub mod engine;
pub mod error;
pub mod init;
pub mod project;
pub mod statement;
pub mod status;
pub mod store;
pub mod tasks;
