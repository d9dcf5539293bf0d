//! Compose projects: published ports, the file that adapts a project, and
//! what goes into its hash.

pub mod changes;
pub mod generate;
pub mod isolation;
pub mod laws;
pub mod override_hash;
pub mod patch;
pub mod placeholder;
pub mod ports;
pub mod render;
