//! Solo execution controller: resolves one agent definition and runs it once,
//! or again each time its file is modified.

pub mod agent;
pub mod config;
pub mod error;
pub mod laws;
pub mod outside;
pub mod solo;

pub use error::SoloError;
