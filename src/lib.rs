//! Backend logic of a desktop front end for a local language-model runner.
//!
//! The library decides which processes to start and how to read what they
//! report; starting them, touching the file system and reading the
//! environment is left to the host application.

pub mod text;
pub mod invocation;
pub mod outcome;
pub mod models;
pub mod folder;
